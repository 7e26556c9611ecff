use stripe_element::mount::mount_plan;
use stripe_element::payment_method_to_string;
use stripe_element::submission::{SubmitAction, SubmitEvent, Submission};

#[test]
fn serialize_unquotes_payment_method() {
    let r = payment_method_to_string("\"{\\\"id\\\":\\\"pm_123\\\"}\"").unwrap();
    assert_eq!(r, "{\"id\":\"pm_123\"}");
}

#[test]
fn serialize_rejects_non_string_json() {
    assert!(payment_method_to_string("{\"id\":\"pm_123\"}").is_err());
    assert!(payment_method_to_string("").is_err());
    assert!(payment_method_to_string("\"unterminated").is_err());
}

#[test]
fn serialize_round_trips() {
    for text in ["{\"id\":\"pm_123\"}", "{}", "{\"a\":[1,2,{\"b\":\"q\\\"\\n\"}]}", "null"] {
        let stringified = serde_json::to_string(text).unwrap();
        let out = payment_method_to_string(&stringified).unwrap();
        assert_eq!(out, text);
        let back: serde_json::Value = serde_json::from_str(&out).unwrap();
        let original: serde_json::Value = serde_json::from_str(text).unwrap();
        assert_eq!(back, original);
    }
}

#[test]
fn end_to_end_with_stubbed_sdk() {
    let plan = mount_plan(Some("pk_test".to_string()), 2000).ok().unwrap();
    assert!(plan.options.contains("\"amount\":2000"));
    let handle = "{\"id\":\"pm_123\"}";
    let mut s = Submission::new();
    s.step::<&str>(SubmitEvent::Validated(Ok(()))).unwrap();
    s.step::<&str>(SubmitEvent::Requested(Ok(()))).unwrap();
    let done = s.step(SubmitEvent::Resolved(Ok(handle))).unwrap();
    let method = match done.action {
        SubmitAction::Finish(Ok(h)) => h,
        _ => panic!("the submission should end with the payment method"),
    };
    let stringified = serde_json::to_string(method).unwrap();
    assert_eq!(payment_method_to_string(&stringified).unwrap(), "{\"id\":\"pm_123\"}");
}
