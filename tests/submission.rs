use stripe_element::submission::{StripeError, SubmitAction, SubmitEvent, SubmitPhase, Submission};

fn err(m: &str) -> StripeError {
    StripeError::new(m.to_string())
}

#[test]
fn submit_success_returns_handle() {
    let mut s = Submission::new();
    let a = s.step::<&str>(SubmitEvent::Validated(Ok(()))).unwrap();
    assert!(a.show.is_none());
    assert!(matches!(a.action, SubmitAction::RequestPaymentMethod));
    let b = s.step::<&str>(SubmitEvent::Requested(Ok(()))).unwrap();
    assert!(b.show.is_none());
    assert!(matches!(b.action, SubmitAction::AwaitPaymentMethod));
    let c = s.step(SubmitEvent::Resolved(Ok("H"))).unwrap();
    assert!(c.show.is_none());
    assert!(matches!(c.action, SubmitAction::Finish(Ok("H"))));
    assert_eq!(s.phase, SubmitPhase::Finished);
}

#[test]
fn submit_request_failure_shows_and_returns_error() {
    let mut s = Submission::new();
    s.step::<&str>(SubmitEvent::Validated(Ok(()))).unwrap();
    let b = s.step::<&str>(SubmitEvent::Requested(Err(err("card declined")))).unwrap();
    assert_eq!(b.show.as_deref(), Some("card declined"));
    match b.action {
        SubmitAction::Finish(Err(e)) => assert_eq!(e.message, "card declined"),
        _ => panic!("the submission should end with the request's error"),
    }
    assert_eq!(s.phase, SubmitPhase::Finished);
}

#[test]
fn submit_validation_failure_does_not_block() {
    let mut s = Submission::new();
    let a = s.step::<&str>(SubmitEvent::Validated(Err(err("incomplete details")))).unwrap();
    assert_eq!(a.show.as_deref(), Some("incomplete details"));
    assert!(matches!(a.action, SubmitAction::RequestPaymentMethod));
    let b = s.step::<&str>(SubmitEvent::Requested(Ok(()))).unwrap();
    assert!(matches!(b.action, SubmitAction::AwaitPaymentMethod));
    let c = s.step(SubmitEvent::Resolved(Ok("H"))).unwrap();
    assert!(matches!(c.action, SubmitAction::Finish(Ok("H"))));
}

#[test]
fn submit_rejected_payment_method_shows_and_returns_error() {
    let mut s = Submission::new();
    s.step::<u32>(SubmitEvent::Validated(Ok(()))).unwrap();
    s.step::<u32>(SubmitEvent::Requested(Ok(()))).unwrap();
    let c = s.step::<u32>(SubmitEvent::Resolved(Err(err("network")))).unwrap();
    assert_eq!(c.show.as_deref(), Some("network"));
    match c.action {
        SubmitAction::Finish(Err(e)) => assert_eq!(e.message, "network"),
        _ => panic!("the submission should end with the rejection"),
    }
}

#[test]
fn submit_refuses_events_out_of_order() {
    let mut s = Submission::new();
    assert!(s.step::<u32>(SubmitEvent::Requested(Ok(()))).is_none());
    assert!(s.step::<u32>(SubmitEvent::Resolved(Ok(1))).is_none());
    assert_eq!(s.phase, SubmitPhase::Validating);
    s.step::<u32>(SubmitEvent::Validated(Ok(()))).unwrap();
    assert!(s.step::<u32>(SubmitEvent::Validated(Ok(()))).is_none());
    assert_eq!(s.phase, SubmitPhase::Requesting);
    s.step::<u32>(SubmitEvent::Requested(Err(err("x")))).unwrap();
    assert!(s.step::<u32>(SubmitEvent::Resolved(Ok(1))).is_none());
    assert_eq!(s.phase, SubmitPhase::Finished);
}
