//! Events delivered to a window's UI implementation.

pub mod ui_event;
