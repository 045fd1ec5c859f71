//! Terminal outcomes of one worker's run.

use vstd::prelude::*;

verus! {

/// The single terminal outcome of one worker's run. Exactly one is
/// produced per run; never zero, never more than one.
#[derive(Clone, Debug)]
pub enum WorkerOutcome {
    /// The run never started: a setup-time failure, fatal for this
    /// worker only.
    BootFailure { message: String },
    /// The tenant code's own uncaught throw, carrying its exact text.
    UncaughtException { message: String },
    /// The worker's event loop ran to completion.
    EventLoopCompleted,
    /// The external enforcer forced the run to stop, carrying the
    /// enforcer's own richer reason.
    ExternalTermination { reason: String },
    /// The enforcer's contract was violated: a termination-pattern
    /// failure arrived but the termination channel's sender was
    /// dropped without depositing an outcome. A typed fatal outcome,
    /// never a crash.
    InternalChannelClosed,
}

} // verus!
