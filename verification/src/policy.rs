//! The execution-mode policy.
//!
//! A single registration-time check of the declared concurrency intent
//! against the requested execution mode; its table is the entire contract
//! for execution-mode selection.

use vstd::prelude::*;
use crate::ExecutionMode;
use crate::errors::BuildError;

verus! {

/// The outcome of the policy check: the chosen mode, and whether a synchronous body
/// was implicitly promoted to the cooperative task runtime (a non-fatal
/// condition the caller should surface as a warning).
#[derive(Clone, Copy, Debug, PartialEq, Eq, Structural)]
pub struct PolicyOutcome {
    pub mode: ExecutionMode,
    pub implicit_promotion: bool,
}

/// Evaluates the policy once per signature.
///
/// An asynchronous body without requested concurrency is fatal. A
/// synchronous body with requested concurrency is implicitly promoted to
/// the cooperative task runtime and succeeds. The two agreeing combinations
/// select their mode directly.
pub fn validate_execution_policy(declared_async: bool, concurrency_requested: bool) -> (r: Result<
    PolicyOutcome,
    BuildError,
>)
    ensures
        r is Err <==> declared_async && !concurrency_requested,
        r is Err ==> r matches Err(BuildError::AsyncWithoutConcurrency),
        r matches Ok(o) ==> o.mode == (if concurrency_requested {
            ExecutionMode::CooperativeTask
        } else {
            ExecutionMode::Sync
        }) && o.implicit_promotion == (!declared_async && concurrency_requested),
{
    if declared_async && !concurrency_requested {
        Err(BuildError::AsyncWithoutConcurrency)
    } else if concurrency_requested {
        Ok(PolicyOutcome { mode: ExecutionMode::CooperativeTask, implicit_promotion: !declared_async })
    } else {
        Ok(PolicyOutcome { mode: ExecutionMode::Sync, implicit_promotion: false })
    }
}

} // verus!
