//! Why a call did not go through.
use vstd::prelude::*;

verus! {

/// The failure of a call. `E` is an error that the platform reported.
#[derive(Debug)]
pub enum AbilityError<E> {
    /// The named function was called outside the main thread.
    OnlyRunWithMainThread(String),
    /// The call failed for the reason given.
    Reason(String),
    /// The platform reported the failure.
    Host(E),
}

} // verus!
