//! The event type a window's UI implementation receives.

use vstd::prelude::*;
use crate::application::TimerId;
use crate::platform::Platform;

verus! {

/// What the run-loop core reads out of a platform window event.
///
/// Everything the driver's own bookkeeping depends on is spelled out here;
/// every other platform event travels as `Other` and is meaningful only to
/// the UI implementation, which also receives the raw event.
#[derive(Debug, Clone, Copy, PartialEq, Eq, Structural)]
pub enum WindowEventKind {
    /// The native window's physical size changed.
    Resized(u32, u32),
    /// The platform asks to close this window.
    CloseRequested,
    /// The platform asks for this window to be redrawn.
    RedrawRequested,
    /// Any other platform window event.
    Other,
}

/// A platform window event: the kind the core inspects, plus the raw
/// platform payload forwarded unmodified to the UI implementation.
pub struct WindowEvent<P: Platform> {
    /// What the run-loop core reads of the event.
    pub kind: WindowEventKind,
    /// The raw platform event.
    pub raw: P::RawEvent,
}

/// An event delivered to a UI implementation together with a window context.
pub enum UIEvent<P: Platform> {
    /// A window-scoped one-shot timer with this id fired.
    TimerOut(TimerId),
    /// A window-scoped interval with this id fired.
    Interval(TimerId),
    /// The window was just created and is about to be registered.
    WindowCreate,
    /// A platform window event routed to this window.
    Other(WindowEvent<P>),
}

} // verus!
