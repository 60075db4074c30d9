//! The fault boundary's recovery policy.
//!
//! A fault caught at an entry point is either the host's own interruption,
//! which is cleared and ends the call normally, or a real failure, which is
//! reported to the host as one error. A failure while reporting cannot be
//! recovered from and ends the process.
use vstd::prelude::*;

verus! {

/// The host's class of cooperative interruption.
pub const INTERRUPTION_CLASS: &'static str = "java.lang.InterruptedException";

/// What the host showed pending when a fault reached the boundary.
#[derive(Clone, Debug, PartialEq, Eq)]
pub enum PendingSignal {
    /// Nothing is pending on the host side.
    Nothing,
    /// An exception of the named class is pending.
    Exception(String),
    /// The host side could not be asked.
    Unavailable,
}

/// What the boundary does about a caught fault.
#[derive(Clone, Copy, Debug, PartialEq, Eq, Structural)]
pub enum Recovery {
    /// An interruption: clear it and return normally.
    Cancel,
    /// Report the fault with its message; `with_cause` says whether the
    /// pending host exception goes along as its cause.
    Report { with_cause: bool },
    /// The fault cannot be reported: end the process.
    Abort,
}

/// The outcome that the host sees.
#[derive(Clone, Copy, Debug, PartialEq, Eq, Structural)]
pub enum Outcome {
    /// The call returned normally.
    Cancelled,
    /// One error was raised on the host side.
    Reported,
    /// The process is ended.
    Fatal,
}

/// Whether `class_name` names the host's interruption.
pub fn is_interruption(class_name: &String) -> (r: bool)
    ensures
        r == (class_name@ == INTERRUPTION_CLASS@),
{
    let expected = INTERRUPTION_CLASS.to_owned();
    *class_name == expected
}

pub open spec fn recovery_spec(pending: PendingSignal) -> Recovery {
    match pending {
        PendingSignal::Nothing => Recovery::Report { with_cause: false },
        PendingSignal::Exception(name) => if name@ == INTERRUPTION_CLASS@ {
            Recovery::Cancel
        } else {
            Recovery::Report { with_cause: true }
        },
        PendingSignal::Unavailable => Recovery::Abort,
    }
}

/// Decides what to do about a caught fault: an interruption is checked for
/// first, before anything else is done.
pub fn recovery_for(pending: &PendingSignal) -> (r: Recovery)
    ensures
        r == recovery_spec(*pending),
{
    match pending {
        PendingSignal::Nothing => Recovery::Report { with_cause: false },
        PendingSignal::Exception(name) => if is_interruption(name) {
            Recovery::Cancel
        } else {
            Recovery::Report { with_cause: true }
        },
        PendingSignal::Unavailable => Recovery::Abort,
    }
}

pub open spec fn outcome_spec(r: Recovery, carried_out: bool) -> Outcome {
    match r {
        Recovery::Cancel => if carried_out {
            Outcome::Cancelled
        } else {
            Outcome::Fatal
        },
        Recovery::Report { .. } => if carried_out {
            Outcome::Reported
        } else {
            Outcome::Fatal
        },
        Recovery::Abort => Outcome::Fatal,
    }
}

/// The outcome once the recovery has been attempted; `carried_out` says
/// whether its host-side steps (clearing the interruption, or raising the
/// error) succeeded. A failure there cannot be recovered from.
pub fn outcome_of(r: Recovery, carried_out: bool) -> (o: Outcome)
    ensures
        o == outcome_spec(r, carried_out),
{
    match r {
        Recovery::Cancel => if carried_out {
            Outcome::Cancelled
        } else {
            Outcome::Fatal
        },
        Recovery::Report { .. } => if carried_out {
            Outcome::Reported
        } else {
            Outcome::Fatal
        },
        Recovery::Abort => Outcome::Fatal,
    }
}

/// A fault never passes the boundary silently: unless it is the host's
/// interruption, cleared, the host gets one reported error or the process
/// ends.
pub proof fn lemma_no_silent_failure(pending: PendingSignal, carried_out: bool)
    ensures
        outcome_spec(recovery_spec(pending), carried_out) == Outcome::Cancelled <==> (
        pending is Exception && pending->Exception_0@ == INTERRUPTION_CLASS@ && carried_out),
{
}

} // verus!
