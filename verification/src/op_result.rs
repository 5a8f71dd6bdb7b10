//! The shared outcome convention for non-blocking operations.

use vstd::prelude::*;

verus! {

/// Outcome of a single non-blocking operation.
///
/// `Ready` carries the completed result. `WouldBlock` means no progress was
/// possible right now; the caller may simply retry later, and the callee has
/// changed nothing. `Failed` is terminal: the operation must not be retried.
///
/// An operation reporting zero progress must do so with `WouldBlock`, never
/// with `Ready(0)`: the state machines in this crate treat `Ready(0)` as
/// "definitively no further progress" and turn it into a terminal error.
#[derive(Debug, Clone, Copy, PartialEq, Eq)]
pub enum OpResult<T, E> {
    /// The operation completed and produced a value.
    Ready(T),
    /// No progress was possible at this instant; retry later.
    WouldBlock,
    /// Terminal failure; the operation must not be retried.
    Failed(E),
}

impl<T, E> OpResult<T, E> {
    /// True exactly when the outcome is `Ready`.
    pub fn is_ready(&self) -> (r: bool)
        ensures
            r == (self is Ready),
    {
        match self {
            OpResult::Ready(_) => true,
            _ => false,
        }
    }

    /// True exactly when the outcome is `WouldBlock`.
    pub fn is_would_block(&self) -> (r: bool)
        ensures
            r == (self is WouldBlock),
    {
        match self {
            OpResult::WouldBlock => true,
            _ => false,
        }
    }
}

} // verus!
