//! A live window: native resource, rendering surface and the user's UI
//! implementation, with reentrancy-safe dispatch of single events.

use vstd::prelude::*;
use crate::application::Application;
use crate::context::context::Context;
use crate::context::window_context::WindowContext;
use crate::event::ui_event::{UIEvent, WindowEvent, WindowEventKind};
use crate::platform::{CreatedWindow, Platform, WindowId};
use crate::ui::UI;

verus! {

/// A window owned by the registry.
///
/// The surface may be recreated in place on resize; the window outlives it.
/// The UI implementation is owned by the window from construction on.
pub struct Window<P: Platform> {
    id: WindowId,
    inner_window: P::NativeWindow,
    graphic: P::Surface,
    ui: P::Ui,
}

impl<P: Platform> Window<P> {
    /// The identifier the platform assigned at creation.
    pub closed spec fn spec_id(self) -> WindowId {
        self.id
    }

    /// The UI implementation this window dispatches to.
    pub closed spec fn spec_ui(self) -> P::Ui {
        self.ui
    }

    /// Bind `ui` to what the window-system binding created: the window is
    /// keyed by the platform-assigned identifier and owns the native
    /// resource, the surface and the UI implementation.
    pub fn from_created(created: CreatedWindow<P>, ui: P::Ui) -> (r: Window<P>)
        ensures
            r.spec_id() == created.id,
            r.spec_ui() == ui,
    {
        Window { id: created.id, inner_window: created.native, graphic: created.surface, ui }
    }

    /// Create the native window and its surface for `config`, and bind `ui`
    /// to them. `None` reports a construction failure at the platform
    /// boundary; the caller decides whether that is fatal.
    pub fn new(event_loop: &P::Handle, config: P::WindowConfig, ui: P::Ui) -> (r: Option<
        Window<P>,
    >)
        ensures
            match r {
                Some(w) => w.spec_ui() == ui,
                None => true,
            },
    {
        match P::create_window(event_loop, config) {
            Some(created) => Some(Window::from_created(created, ui)),
            None => None,
        }
    }

    pub fn id(&self) -> (r: WindowId)
        ensures
            r == self.spec_id(),
    {
        self.id
    }

    /// Recreate or resize the surface for the new physical size.
    pub fn on_resize(&mut self, width: u32, height: u32)
        ensures
            final(self).spec_id() == old(self).spec_id(),
            final(self).spec_ui() == old(self).spec_ui(),
    {
        P::resize_surface(&mut self.graphic, width, height);
    }

}

impl<P: Platform> Window<P> where P::Ui: UI<P> {
    /// Run the UI's draw callback on the surface, then present it. The
    /// present always follows the draw, whether or not the callback changed
    /// the surface.
    pub fn draw(&mut self)
        ensures
            final(self).spec_id() == old(self).spec_id(),
    {
        P::pre_present_notify(&self.inner_window);
        self.ui.draw(&mut self.graphic);
        P::present_surface(&mut self.graphic);
    }

    /// Ask the platform to schedule a redraw of this window.
    pub fn request_redraw(&self) {
        P::request_redraw(&self.inner_window);
    }

    /// Dispatch one event to the owned UI implementation.
    ///
    /// The window is expected to be checked out of the registry: the context
    /// handed to the UI borrows the registry mutably, so the callback may
    /// create or close windows (including this one) freely.
    pub(crate) fn dispatch(
        &mut self,
        event: UIEvent<P>,
        application: &mut Application<P>,
        event_loop: &P::Handle,
    )
        ensures
            final(self).spec_id() == old(self).spec_id(),
    {
        if let UIEvent::Other(window_event) = &event {
            match window_event.kind {
                WindowEventKind::Resized(width, height) => {
                    self.on_resize(width, height);
                },
                WindowEventKind::RedrawRequested => {
                    self.draw();
                },
                WindowEventKind::CloseRequested => {},
                WindowEventKind::Other => {},
            }
        }
        let mut event_context = WindowContext::new(
            Context::new(application, event_loop),
            &self.inner_window,
            self.id,
        );
        self.ui.handle_event(event, &mut event_context);
    }

    /// Route a platform window event: internal bookkeeping first (surface
    /// resize, draw and present), then the raw event goes to the UI.
    pub fn handle_event(
        &mut self,
        event: WindowEvent<P>,
        application: &mut Application<P>,
        event_loop: &P::Handle,
    )
        ensures
            final(self).spec_id() == old(self).spec_id(),
    {
        self.dispatch(UIEvent::Other(event), application, event_loop);
    }

    /// Notify the UI that its window exists; runs before registration.
    pub(crate) fn on_created(&mut self, application: &mut Application<P>, event_loop: &P::Handle)
        ensures
            final(self).spec_id() == old(self).spec_id(),
    {
        self.dispatch(UIEvent::WindowCreate, application, event_loop);
    }

}

impl<P: Platform> Window<P> {
    /// The driver removed this window for good; nothing to release beyond
    /// dropping the native resources.
    pub(crate) fn on_close(&self) {
    }
}

} // verus!
