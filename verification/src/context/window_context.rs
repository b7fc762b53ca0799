//! The window-scope capability context.

use vstd::prelude::*;
use crate::application::{Application, IntervalAction, PendingInterval, PendingTimer, TimerAction, TimerId};
use crate::context::context::Context;
use crate::custom_event::CustomEvent;
use crate::platform::{Platform, WindowId};

verus! {

/// The application-scope context decorated with window-local operations:
/// request a redraw, begin a drag, close this window, and schedule timers or
/// intervals whose firing is dispatched back to this window. Valid only for
/// the duration of the callback that received it.
pub struct WindowContext<'a, P: Platform> {
    application_context: Context<'a, P>,
    native_window: &'a P::NativeWindow,
    window_id: WindowId,
}

impl<'a, P: Platform> WindowContext<'a, P> {
    /// The driver state this context currently views.
    pub closed spec fn app(self) -> Application<P> {
        self.application_context.app()
    }

    /// The identifier of the window being serviced.
    pub closed spec fn spec_window_id(self) -> WindowId {
        self.window_id
    }

    pub(crate) fn new(
        application_context: Context<'a, P>,
        native_window: &'a P::NativeWindow,
        window_id: WindowId,
    ) -> (r: Self)
        ensures
            r.app() == application_context.app(),
            r.spec_window_id() == window_id,
    {
        WindowContext { application_context, native_window, window_id }
    }

    /// Ask the platform to schedule a redraw of this window.
    pub fn request_redraw(&mut self)
        ensures
            final(self).app() == old(self).app(),
            final(self).spec_window_id() == old(self).spec_window_id(),
    {
        P::request_redraw(self.native_window);
    }

    /// Begin an interactive drag of this window.
    pub fn start_drag(&mut self)
        ensures
            final(self).app() == old(self).app(),
            final(self).spec_window_id() == old(self).spec_window_id(),
    {
        P::begin_drag(self.native_window);
    }

    /// Enqueue a deferred request to close this very window. The window is
    /// not removed now — it survives until the driver drains the queue, so
    /// calling this from the window's own event handler is safe.
    pub fn close_window(&mut self)
        ensures
            final(self).app().deferred_requests() == old(self).app().deferred_requests().push(
                CustomEvent::CloseWindow(old(self).spec_window_id()),
            ),
            final(self).app().same_windows(old(self).app()),
            final(self).app().same_timers(old(self).app()),
            final(self).app().same_intervals(old(self).app()),
            final(self).app().same_exit(old(self).app()),
            final(self).spec_window_id() == old(self).spec_window_id(),
    {
        let window_id = self.window_id;
        self.application_context.close_window(window_id);
    }

    /// The wrapped application-scope context.
    pub fn application(&mut self) -> (r: &mut Context<'a, P>)
        ensures
            r.app() == old(self).app(),
    {
        &mut self.application_context
    }

    /// Schedule a one-shot timer whose firing is dispatched to this window
    /// as `UIEvent::TimerOut`, through the same checked-out protocol as any
    /// other event.
    pub fn add_timer(&mut self, now: u64, time: u64)
        requires
            old(self).app().timer_counter().0 < u32::MAX,
            now + time <= u64::MAX,
        ensures
            final(self).app().timers() == old(self).app().timers().insert(
                (old(self).app().timer_counter().0 + 1) as u64,
                (PendingTimer {
                    due: (now + time) as u64,
                    action: TimerAction::WindowTimeout(old(self).spec_window_id()),
                }),
            ),
            final(self).app().timer_counter().0 == old(self).app().timer_counter().0 + 1,
            final(self).app().same_windows(old(self).app()),
            final(self).app().same_intervals(old(self).app()),
            final(self).app().same_deferred(old(self).app()),
            final(self).app().same_exit(old(self).app()),
            final(self).spec_window_id() == old(self).spec_window_id(),
    {
        let window_id = self.window_id;
        let _ = self.application_context.add_timer_action(
            now,
            time,
            TimerAction::WindowTimeout(window_id),
        );
    }

    /// Cancel a one-shot timer; a no-op if it already fired or never existed.
    pub fn remove_timer(&mut self, id: TimerId)
        ensures
            final(self).app().timers() == old(self).app().timers().remove(id.0 as u64),
            final(self).app().timer_counter() == old(self).app().timer_counter(),
            final(self).app().same_windows(old(self).app()),
            final(self).app().same_intervals(old(self).app()),
            final(self).app().same_deferred(old(self).app()),
            final(self).app().same_exit(old(self).app()),
            final(self).spec_window_id() == old(self).spec_window_id(),
    {
        self.application_context.clear_timer(id);
    }

    /// Schedule an interval whose firings are dispatched to this window as
    /// `UIEvent::Interval`.
    pub fn add_interval(&mut self, now: u64, time: u64)
        requires
            old(self).app().interval_counter().0 < u32::MAX,
        ensures
            final(self).app().intervals() == old(self).app().intervals().insert(
                (old(self).app().interval_counter().0 + 1) as u64,
                (PendingInterval {
                    last_fired: now,
                    period: time,
                    action: IntervalAction::WindowInterval(old(self).spec_window_id()),
                }),
            ),
            final(self).app().interval_counter().0 == old(self).app().interval_counter().0 + 1,
            final(self).app().same_windows(old(self).app()),
            final(self).app().same_timers(old(self).app()),
            final(self).app().same_deferred(old(self).app()),
            final(self).app().same_exit(old(self).app()),
            final(self).spec_window_id() == old(self).spec_window_id(),
    {
        let window_id = self.window_id;
        let _ = self.application_context.add_interval_action(
            now,
            time,
            IntervalAction::WindowInterval(window_id),
        );
    }

    /// Cancel an interval; a no-op if it is gone already.
    pub fn remove_interval(&mut self, id: TimerId)
        ensures
            final(self).app().intervals() == old(self).app().intervals().remove(id.0 as u64),
            final(self).app().interval_counter() == old(self).app().interval_counter(),
            final(self).app().same_windows(old(self).app()),
            final(self).app().same_timers(old(self).app()),
            final(self).app().same_deferred(old(self).app()),
            final(self).app().same_exit(old(self).app()),
            final(self).spec_window_id() == old(self).spec_window_id(),
    {
        self.application_context.clear_interval(id);
    }
}

} // verus!
