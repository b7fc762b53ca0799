//! The application's startup callback holder.

use vstd::prelude::*;
use crate::context::context::Context;
use crate::platform::Platform;

verus! {

/// The callback the driver runs on the platform loop's initialization event,
/// before any window exists; this is where the first window is created.
pub trait InitHandler<P: Platform>: Sized {
    /// Run the startup logic with an application-scope context.
    fn on_init(&self, context: &mut Context<P>);
}

/// Holds the startup callback, if one was registered.
pub struct EventHandler<P: Platform> {
    handle_init: Option<P::InitCallback>,
}

impl<P: Platform> EventHandler<P> {
    /// The registered startup callback.
    pub closed spec fn spec_init_handler(self) -> Option<P::InitCallback> {
        self.handle_init
    }

    /// An event handler with no startup callback.
    pub fn new() -> (r: Self)
        ensures
            r.spec_init_handler() is None,
    {
        EventHandler { handle_init: None }
    }

    /// Register the startup callback, replacing any earlier one.
    pub fn add_init_handler(&mut self, handle_init: P::InitCallback)
        ensures
            final(self).spec_init_handler() == Some(handle_init),
    {
        self.handle_init = Some(handle_init);
    }

    /// Whether a startup callback is registered.
    pub(crate) fn has_init_handler(&self) -> (r: bool)
        ensures
            r == (self.spec_init_handler() is Some),
    {
        match &self.handle_init {
            Some(_) => true,
            None => false,
        }
    }
}

impl<P: Platform> EventHandler<P> where P::InitCallback: InitHandler<P> {
    /// Run the startup callback, if one was registered.
    pub(crate) fn on_init(&self, event_context: &mut Context<P>) {
        if let Some(handler) = &self.handle_init {
            handler.on_init(event_context);
        }
    }
}

impl<P: Platform> Default for EventHandler<P> {
    /// An event handler with no startup callback.
    fn default() -> (r: Self)
        ensures
            r.spec_init_handler() is None,
    {
        Self::new()
    }
}

} // verus!
