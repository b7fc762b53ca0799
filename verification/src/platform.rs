//! Interfaces of the external collaborators: the window-system binding, the
//! graphics backend and the user UI logic.
//!
//! The run-loop core never inspects a native window, a rendering surface or a
//! UI implementation; it only carries them and calls through these traits.
//! None of the methods here carries an `ensures` clause: nothing the core
//! proves rests on how a collaborator behaves.

use vstd::prelude::*;

verus! {

/// A native window identifier handed out by the window-system binding.
/// Unique for the process lifetime; never reused.
#[derive(Debug, Copy, Clone, PartialEq, Eq, Hash, Structural)]
pub struct WindowId(pub u64);

/// The window-system binding and graphics backend, bundled.
///
/// An implementation supplies the concrete native-window, surface and
/// callback types and the operations the run-loop core needs from them.
pub trait Platform: Sized {
    /// Scope in which native windows can be created (alive only while the
    /// platform loop runs).
    type Handle;

    /// A native window resource.
    type NativeWindow;

    /// A drawable rendering surface sized to its window.
    type Surface;

    /// Window creation configuration (title, initial size, ...).
    type WindowConfig;

    /// Raw platform window event, forwarded unmodified to the UI.
    type RawEvent;

    /// The user interface implementation owned by each window; it must
    /// implement the `UI` trait, which every impl block that dispatches to
    /// it requires.
    type Ui;

    /// An application-scope one-shot timer callback; a `TimerHandler`.
    type TimerCallback;

    /// An application-scope repeating interval callback; an `IntervalHandler`.
    type IntervalCallback;

    /// The startup callback run on the loop's initialization event; an
    /// `InitHandler`.
    type InitCallback;

    /// Create a native window and its rendering surface.
    /// `None` reports a construction failure at the platform boundary.
    fn create_window(handle: &Self::Handle, config: Self::WindowConfig) -> Option<
        CreatedWindow<Self>,
    >;

    /// Ask the platform to deliver a redraw event for this window.
    fn request_redraw(native: &Self::NativeWindow);

    /// Begin an interactive window drag.
    fn begin_drag(native: &Self::NativeWindow);

    /// Notify the platform that a frame is about to be presented.
    fn pre_present_notify(native: &Self::NativeWindow);

    /// Resize the surface to the window's new physical size.
    fn resize_surface(surface: &mut Self::Surface, width: u32, height: u32);

    /// Present the surface's current contents to the screen.
    fn present_surface(surface: &mut Self::Surface);
}

/// What the window-system binding returns for a freshly created window.
pub struct CreatedWindow<P: Platform> {
    /// The platform-assigned identifier.
    pub id: WindowId,
    /// The native window resource.
    pub native: P::NativeWindow,
    /// The rendering surface bound to that window.
    pub surface: P::Surface,
}

} // verus!
