//! The interface a user interface implementation supplies per window.

use vstd::prelude::*;
use crate::context::window_context::WindowContext;
use crate::event::ui_event::UIEvent;
use crate::platform::Platform;

verus! {

/// A pluggable UI implementation, owned by its window.
///
/// Both methods run synchronously on the run-loop thread. `draw` is invoked
/// only in response to a redraw request, never speculatively, and a present
/// of the surface always follows it.
pub trait UI<P: Platform>: Sized {
    /// Paint the window's contents onto its rendering surface.
    fn draw(&mut self, surface: &mut P::Surface);

    /// React to one event; the context is valid only for this call.
    fn handle_event(&mut self, event: UIEvent<P>, event_context: &mut WindowContext<P>);
}

} // verus!
