//! The execution supervisor: settles one worker's run to exactly one
//! terminal outcome.
//!
//! The supervisor itself never awaits: the surrounding runtime awaits
//! the run's completion, hands the result to [`on_run_result`], and
//! only when that returns [`SupervisorStep::AwaitTermination`] reads
//! the termination channel and hands what it got to
//! [`on_termination_event`]. So no outcome is ever produced twice or
//! lost, and the channel is read only after the run already failed in
//! a termination-matching way.

use vstd::prelude::*;

use crate::outcome::WorkerOutcome;
use crate::strutil::{is_suffix_of, str_ends_with};

verus! {

/// Classification of a failed run's error text.
#[derive(Clone, Copy, Debug, PartialEq, Eq, Structural)]
pub enum ErrorClass {
    /// The text matches a pattern the external enforcer produces when
    /// it forcibly kills a run.
    ExternalTerminationPattern,
    /// Anything else: the tenant code's own exception.
    ApplicationException,
}

/// What the supervisor asks of its caller after the run completed.
pub enum SupervisorStep {
    /// The outcome is settled; the termination channel is never read.
    Settled(WorkerOutcome),
    /// The generic error carries no detail about why termination
    /// happened: read the termination channel and defer to it.
    AwaitTermination,
}

/// The error text matches one of the two forced-termination suffixes,
/// case-sensitively at the end of the message.
pub open spec fn is_termination_pattern(message: Seq<char>) -> bool {
    is_suffix_of("execution terminated"@, message)
        || is_suffix_of("wall clock duration reached"@, message)
}

/// Maps an error's text to its class. Pure and total: any message not
/// ending in a recognized suffix is the application's own exception.
pub fn classify(message: &str) -> (c: ErrorClass)
    ensures
        c == ErrorClass::ExternalTerminationPattern <==> is_termination_pattern(message@),
{
    if str_ends_with(message, "execution terminated")
        || str_ends_with(message, "wall clock duration reached") {
        ErrorClass::ExternalTerminationPattern
    } else {
        ErrorClass::ApplicationException
    }
}

/// Settles a completed run, or asks for the termination event.
///
/// A successful run settles as `EventLoopCompleted`; a failure whose
/// text does not match a termination pattern settles as
/// `UncaughtException` carrying the exact text. Only a
/// termination-pattern failure defers to the termination channel, so
/// on every other result the channel is never read.
pub fn on_run_result(result: Result<(), String>) -> (step: SupervisorStep)
    ensures
        match result {
            Ok(_) => step == SupervisorStep::Settled(WorkerOutcome::EventLoopCompleted),
            Err(m) => if is_termination_pattern(m@) {
                step is AwaitTermination
            } else {
                step == (SupervisorStep::Settled(WorkerOutcome::UncaughtException { message: m }))
            },
        },
        step is AwaitTermination <==> (result matches Err(m) && is_termination_pattern(m@)),
{
    match result {
        Ok(()) => SupervisorStep::Settled(WorkerOutcome::EventLoopCompleted),
        Err(message) => {
            match classify(message.as_str()) {
                ErrorClass::ExternalTerminationPattern => SupervisorStep::AwaitTermination,
                ErrorClass::ApplicationException => SupervisorStep::Settled(
                    WorkerOutcome::UncaughtException { message },
                ),
            }
        },
    }
}

/// Settles a deferred run from what the termination channel delivered.
///
/// The enforcer's deposited outcome is returned verbatim. A dropped
/// sender (`None`) is an internal-consistency violation and surfaces
/// as the typed `InternalChannelClosed` outcome rather than a crash.
pub fn on_termination_event(received: Option<WorkerOutcome>) -> (outcome: WorkerOutcome)
    ensures
        received matches Some(o) ==> outcome == o,
        received is None ==> outcome == WorkerOutcome::InternalChannelClosed,
{
    match received {
        Some(o) => o,
        None => WorkerOutcome::InternalChannelClosed,
    }
}

/// Settles a run that failed before the supervised race even began:
/// any such failure is a boot failure carrying the error's text.
pub fn on_boot_failure(message: String) -> (outcome: WorkerOutcome)
    ensures
        outcome == (WorkerOutcome::BootFailure { message }),
{
    WorkerOutcome::BootFailure { message }
}

} // verus!
