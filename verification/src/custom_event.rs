//! Deferred lifecycle requests.

use vstd::prelude::*;
use crate::platform::WindowId;

verus! {

/// A request enqueued for the next loop iteration instead of being applied
/// synchronously, so that a callback may ask to close the very window that is
/// being dispatched (or to end the application) without reentrant mutation of
/// the registry.
#[derive(Debug, Clone, Copy, PartialEq, Eq, Structural)]
pub enum CustomEvent {
    /// Close the window with this identifier; a no-op if it is already gone.
    CloseWindow(WindowId),
    /// Terminate the run loop.
    Exit,
}

} // verus!
