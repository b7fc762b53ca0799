//! Single-threaded run-loop core for a desktop UI runtime.
//!
//! The crate owns the event-loop state machine: a registry of live windows,
//! a cooperative timer/interval scheduler, a deferred request queue, and the
//! layered capability contexts handed to user callbacks. The window-system
//! binding, the graphics backend and the user UI logic are collaborators
//! reached only through the traits in [`platform`], [`ui`] and
//! [`event_handler`]; the loop itself is pumped by an unverified shell that
//! feeds each platform event into [`application::Application::run_iteration`].

pub mod application;
pub mod context;
pub mod custom_event;
pub mod event;
pub mod event_handler;
pub mod platform;
mod table;
pub mod ui;
pub mod window;

pub use application::TimerId;
pub use platform::WindowId;
