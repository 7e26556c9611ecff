//! The decisions of a payment submission. The widget's own submit step runs
//! first; whatever it reports, a payment method is then requested from the
//! client; if the request is taken, its pending result is awaited. Every error
//! is shown in the error display, and only an error of the request or of its
//! result ends the submission with that error. The caller performs each
//! action and hands back what came of it.
use vstd::prelude::*;

verus! {

/// An error reported by the payment SDK: its message alone.
pub struct StripeError {
    pub message: String,
}

impl StripeError {
    pub fn new(message: String) -> (r: Self)
        ensures
            r.message == message,
    {
        StripeError { message }
    }
}

/// Where a submission stands.
#[derive(Debug, Clone, Copy, PartialEq, Eq, Structural)]
pub enum SubmitPhase {
    /// Waiting for the widget's submit step.
    Validating,
    /// Waiting to learn whether the payment method request was taken.
    Requesting,
    /// Waiting for the pending payment method.
    Awaiting,
    /// Done; no event is taken any more.
    Finished,
}

/// What came of the last action, `H` being the payment method handle.
pub enum SubmitEvent<H> {
    /// The widget's submit step succeeded or failed.
    Validated(Result<(), StripeError>),
    /// The payment method request was taken (its result is pending) or failed.
    Requested(Result<(), StripeError>),
    /// The pending payment method resolved or was rejected.
    Resolved(Result<H, StripeError>),
}

/// What the caller does next.
pub enum SubmitAction<H> {
    /// Request a payment method from the client, with the session as its
    /// `elements`.
    RequestPaymentMethod,
    /// Await the pending payment method.
    AwaitPaymentMethod,
    /// End the submission with this result.
    Finish(Result<H, StripeError>),
}

/// The answer to one event: a text to show in the error display, if any, and
/// the next action.
pub struct SubmitStep<H> {
    pub show: Option<String>,
    pub action: SubmitAction<H>,
}

/// The state of one submission.
pub struct Submission {
    pub phase: SubmitPhase,
}

/// Whether `phase` waits for an event of the kind of `e`.
pub open spec fn takes<H>(phase: SubmitPhase, e: SubmitEvent<H>) -> bool {
    match e {
        SubmitEvent::Validated(_) => phase == SubmitPhase::Validating,
        SubmitEvent::Requested(_) => phase == SubmitPhase::Requesting,
        SubmitEvent::Resolved(_) => phase == SubmitPhase::Awaiting,
    }
}

/// The message of the error that `e` reports, if it reports one.
pub open spec fn error_of<H>(e: SubmitEvent<H>) -> Option<Seq<char>> {
    match e {
        SubmitEvent::Validated(Err(err)) => Some(err.message@),
        SubmitEvent::Requested(Err(err)) => Some(err.message@),
        SubmitEvent::Resolved(Err(err)) => Some(err.message@),
        _ => None,
    }
}

/// The phase after `e`.
pub open spec fn phase_after<H>(e: SubmitEvent<H>) -> SubmitPhase {
    match e {
        SubmitEvent::Validated(_) => SubmitPhase::Requesting,
        SubmitEvent::Requested(Ok(())) => SubmitPhase::Awaiting,
        SubmitEvent::Requested(Err(_)) => SubmitPhase::Finished,
        SubmitEvent::Resolved(_) => SubmitPhase::Finished,
    }
}

/// The action after `e`: a failed submit step does not stop the request.
pub open spec fn action_after<H>(e: SubmitEvent<H>) -> SubmitAction<H> {
    match e {
        SubmitEvent::Validated(_) => SubmitAction::RequestPaymentMethod,
        SubmitEvent::Requested(Ok(())) => SubmitAction::AwaitPaymentMethod,
        SubmitEvent::Requested(Err(err)) => SubmitAction::Finish(Err(err)),
        SubmitEvent::Resolved(r) => SubmitAction::Finish(r),
    }
}

pub open spec fn shown_view(show: Option<String>) -> Option<Seq<char>> {
    match show {
        Some(s) => Some(s@),
        None => None,
    }
}

fn error_text(r: &Result<(), StripeError>) -> (show: Option<String>)
    ensures
        shown_view(show) == match r {
            Ok(_) => None::<Seq<char>>,
            Err(err) => Some(err.message@),
        },
{
    match r {
        Ok(_) => None,
        Err(err) => Some(err.message.clone()),
    }
}

impl Submission {
    /// A submission that waits for the widget's submit step.
    pub fn new() -> (r: Self)
        ensures
            r.phase == SubmitPhase::Validating,
    {
        Submission { phase: SubmitPhase::Validating }
    }

    /// Takes what came of the last action. An event that the phase does not
    /// wait for is refused: `None`, and the phase stays.
    pub fn step<H>(&mut self, event: SubmitEvent<H>) -> (r: Option<SubmitStep<H>>)
        ensures
            !takes(old(self).phase, event) ==> r is None && final(self).phase == old(self).phase,
            takes(old(self).phase, event) ==> r is Some,
            takes(old(self).phase, event) ==> final(self).phase == phase_after(event),
            takes(old(self).phase, event) ==> shown_view(r->Some_0.show) == error_of(event),
            takes(old(self).phase, event) ==> r->Some_0.action == action_after(event),
    {
        match event {
            SubmitEvent::Validated(v) => {
                if self.phase != SubmitPhase::Validating {
                    return None;
                }
                self.phase = SubmitPhase::Requesting;
                let show = error_text(&v);
                Some(SubmitStep { show, action: SubmitAction::RequestPaymentMethod })
            },
            SubmitEvent::Requested(q) => {
                if self.phase != SubmitPhase::Requesting {
                    return None;
                }
                let show = error_text(&q);
                match q {
                    Ok(()) => {
                        self.phase = SubmitPhase::Awaiting;
                        Some(SubmitStep { show, action: SubmitAction::AwaitPaymentMethod })
                    },
                    Err(err) => {
                        self.phase = SubmitPhase::Finished;
                        Some(SubmitStep { show, action: SubmitAction::Finish(Err(err)) })
                    },
                }
            },
            SubmitEvent::Resolved(m) => {
                if self.phase != SubmitPhase::Awaiting {
                    return None;
                }
                self.phase = SubmitPhase::Finished;
                let show = match &m {
                    Ok(_) => None,
                    Err(err) => Some(err.message.clone()),
                };
                Some(SubmitStep { show, action: SubmitAction::Finish(m) })
            },
        }
    }
}

/// A submission runs to its end whatever its outcomes: the submit step is
/// always followed by the payment method request, whatever it reported; a
/// request that fails ends the submission with its error; a request that is
/// taken is awaited, and the submission ends with what it resolves to.
pub proof fn lemma_submission_outcome<H>(
    validated: Result<(), StripeError>,
    requested: Result<(), StripeError>,
    resolved: Result<H, StripeError>,
)
    ensures
        takes(SubmitPhase::Validating, SubmitEvent::<H>::Validated(validated)),
        phase_after(SubmitEvent::<H>::Validated(validated)) == SubmitPhase::Requesting,
        action_after(SubmitEvent::<H>::Validated(validated)) == SubmitAction::<H>::RequestPaymentMethod,
        takes(SubmitPhase::Requesting, SubmitEvent::<H>::Requested(requested)),
        requested is Err ==> action_after(SubmitEvent::<H>::Requested(requested))
            == SubmitAction::<H>::Finish(Err(requested->Err_0)),
        requested is Err ==> phase_after(SubmitEvent::<H>::Requested(requested)) == SubmitPhase::Finished,
        requested is Ok ==> action_after(SubmitEvent::<H>::Requested(requested))
            == SubmitAction::<H>::AwaitPaymentMethod,
        requested is Ok ==> takes(phase_after(SubmitEvent::<H>::Requested(requested)), SubmitEvent::Resolved(resolved)),
        action_after(SubmitEvent::Resolved(resolved)) == SubmitAction::Finish(resolved),
        phase_after(SubmitEvent::Resolved(resolved)) == SubmitPhase::Finished,
{
}

} // verus!
