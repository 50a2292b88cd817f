//! The order of activation, as a step function from state and event to the
//! next state and the action to perform.
//!
//! Activation binds the agreement lookup handler, then exports the app-keys
//! once, then reports itself done. The export is best-effort: whatever it
//! returns, activation finishes, and the handler stays bound.
use vstd::prelude::*;
use crate::error::ExportError;

verus! {

/// How far activation has come.
#[derive(Clone, Copy, Debug, PartialEq, Eq, Structural)]
pub enum Phase {
    Idle,
    Binding,
    Exporting,
    Activated,
}

/// The state of an activation.
#[derive(Clone, Copy, Debug, PartialEq, Eq, Structural)]
pub struct Activation {
    pub phase: Phase,
    /// Whether the agreement lookup handler is bound on the bus.
    pub handler_bound: bool,
}

/// What happened since the last step.
pub enum ActivationEvent {
    /// Activation was asked for.
    Started,
    /// The agreement lookup handler was bound.
    HandlerBound,
    /// The app-key export ended, with this outcome.
    ExportDone(Result<(), ExportError>),
}

/// What to do next.
pub enum ActivationAction {
    /// Bind the agreement lookup handler.
    BindHandler,
    /// Run the app-key export once.
    ExportKeys,
    /// Report activation done, after logging the export's error if it had one.
    Finish(Option<ExportError>),
    /// Nothing: the event does not apply in this phase.
    Wait,
}

/// The state in which activation starts.
pub open spec fn initial() -> Activation {
    Activation { phase: Phase::Idle, handler_bound: false }
}

/// The next state and action after `ev` in state `s`.
pub open spec fn next(s: Activation, ev: ActivationEvent) -> (Activation, ActivationAction) {
    match (s.phase, ev) {
        (Phase::Idle, ActivationEvent::Started) =>
            (Activation { phase: Phase::Binding, ..s }, ActivationAction::BindHandler),
        (Phase::Binding, ActivationEvent::HandlerBound) =>
            (Activation { phase: Phase::Exporting, handler_bound: true }, ActivationAction::ExportKeys),
        (Phase::Exporting, ActivationEvent::ExportDone(outcome)) =>
            (Activation { phase: Phase::Activated, ..s }, ActivationAction::Finish(
                match outcome {
                    Ok(_) => None,
                    Err(e) => Some(e),
                },
            )),
        _ => (s, ActivationAction::Wait),
    }
}

impl Activation {
    /// An activation that has not started.
    pub fn new() -> (r: Activation)
        ensures
            r == initial(),
    {
        Activation { phase: Phase::Idle, handler_bound: false }
    }

    /// Takes one step: the next state, and the action to perform.
    pub fn step(self, ev: ActivationEvent) -> (r: (Activation, ActivationAction))
        ensures
            r == next(self, ev),
    {
        match (self.phase, ev) {
            (Phase::Idle, ActivationEvent::Started) =>
                (Activation { phase: Phase::Binding, handler_bound: self.handler_bound }, ActivationAction::BindHandler),
            (Phase::Binding, ActivationEvent::HandlerBound) =>
                (Activation { phase: Phase::Exporting, handler_bound: true }, ActivationAction::ExportKeys),
            (Phase::Exporting, ActivationEvent::ExportDone(outcome)) => {
                let failure = match outcome {
                    Ok(_) => None,
                    Err(e) => Some(e),
                };
                (Activation { phase: Phase::Activated, handler_bound: self.handler_bound }, ActivationAction::Finish(failure))
            },
            (_, ev) => {
                proof {
                    assert(next(self, ev) == (self, ActivationAction::Wait));
                }
                (self, ActivationAction::Wait)
            },
        }
    }
}

/// A failed app-key export does not stop activation: from the start, after
/// the handler is bound, an export that ends with any outcome, an error
/// included, brings activation to its end with the handler still bound, and
/// the error, if any, is handed over to be logged.
pub proof fn lemma_export_failure_swallowed(outcome: Result<(), ExportError>)
    ensures
        ({
            let (s1, a1) = next(initial(), ActivationEvent::Started);
            let (s2, a2) = next(s1, ActivationEvent::HandlerBound);
            let (s3, a3) = next(s2, ActivationEvent::ExportDone(outcome));
            &&& a1 is BindHandler
            &&& a2 is ExportKeys
            &&& s3.phase == Phase::Activated
            &&& s3.handler_bound
            &&& a3 == ActivationAction::Finish(
                match outcome {
                    Ok(_) => None,
                    Err(e) => Some(e),
                },
            )
        }),
{
}

/// Once bound, the lookup handler stays bound, whatever happens next.
pub proof fn lemma_handler_stays_bound(s: Activation, ev: ActivationEvent)
    requires
        s.handler_bound,
    ensures
        next(s, ev).0.handler_bound,
{
}

/// Once activated, activation stays activated and asks for nothing more.
pub proof fn lemma_activated_is_final(s: Activation, ev: ActivationEvent)
    requires
        s.phase == Phase::Activated,
    ensures
        next(s, ev) == (s, ActivationAction::Wait),
{
}

} // verus!
