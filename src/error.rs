use vstd::prelude::*;

verus! {

/// The ways in which the pool reports a problem.
#[derive(Clone, Copy, Debug, PartialEq, Eq, Structural)]
pub enum PoolError {
    /// A pool was asked for with no workers.
    InvalidConfiguration,
    /// A job was submitted after shutdown had begun.
    Closed,
    /// A job failed while it ran; the worker that ran it goes on.
    JobFailure,
}

} // verus!
