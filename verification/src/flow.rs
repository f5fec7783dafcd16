//! The invocation flow: register the death signal, then replace the image.
//!
//! The registration must have run to completion before the image is
//! replaced, so the decision between the two outward actions is taken
//! here, from the registration's outcome alone.

use vstd::prelude::*;

verus! {

/// What the process does after the death-signal registration.
#[derive(Debug, Clone, Copy, PartialEq, Eq, Structural)]
pub enum NextStep {
    /// The registration took effect: replace the process image with the
    /// target program.
    ReplaceImage,
    /// Exit at once with this status, without attempting the target
    /// program.
    Exit(i32),
}

/// Decide what follows the death-signal registration: on success the
/// process image is replaced; on failure the process exits at once with
/// the captured error code as its status, and the target program is never
/// attempted.
pub fn after_registration(outcome: Result<(), i32>) -> (step: NextStep)
    ensures
        outcome is Ok ==> step == NextStep::ReplaceImage,
        outcome matches Err(e) ==> step == NextStep::Exit(e),
{
    match outcome {
        Ok(()) => NextStep::ReplaceImage,
        Err(e) => NextStep::Exit(e),
    }
}

} // verus!
