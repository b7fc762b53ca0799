//! The application-scope capability context.

use vstd::prelude::*;
use crate::application::{Application, IntervalAction, PendingInterval, PendingTimer, TimerAction, TimerId};
use crate::platform::{Platform, WindowId};
use crate::window::Window;

verus! {

/// A non-owning facade over the driver, valid only for the duration of the
/// callback that received it: create windows, schedule and cancel timers and
/// intervals, and enqueue deferred close or exit requests.
pub struct Context<'a, P: Platform> {
    pub(crate) application: &'a mut Application<P>,
    pub(crate) event_loop: &'a P::Handle,
}

impl<'a, P: Platform> Context<'a, P> {
    /// The driver state this context currently views.
    pub closed spec fn app(self) -> Application<P> {
        *self.application
    }

    pub(crate) fn new(application: &'a mut Application<P>, event_loop: &'a P::Handle) -> (r: Self)
        ensures
            r.app() == *old(application),
    {
        Context { application, event_loop }
    }

    /// Schedule a one-shot callback due at `now + time` under a fresh id.
    pub fn set_timer(&mut self, now: u64, time: u64, f: P::TimerCallback) -> (id: TimerId)
        requires
            old(self).app().timer_counter().0 < u32::MAX,
            now + time <= u64::MAX,
        ensures
            id.0 == old(self).app().timer_counter().0 + 1,
            final(self).app().timers() == old(self).app().timers().insert(
                id.0 as u64,
                (PendingTimer { due: (now + time) as u64, action: TimerAction::User(f) }),
            ),
            final(self).app().timer_counter() == id,
            final(self).app().same_windows(old(self).app()),
            final(self).app().same_intervals(old(self).app()),
            final(self).app().same_deferred(old(self).app()),
            final(self).app().same_exit(old(self).app()),
    {
        self.application.add_timer(now, time, TimerAction::User(f))
    }

    /// Cancel a one-shot timer; a no-op if it already fired or never existed.
    pub fn clear_timer(&mut self, timer_id: TimerId)
        ensures
            final(self).app().timers() == old(self).app().timers().remove(timer_id.0 as u64),
            final(self).app().timer_counter() == old(self).app().timer_counter(),
            final(self).app().same_windows(old(self).app()),
            final(self).app().same_intervals(old(self).app()),
            final(self).app().same_deferred(old(self).app()),
            final(self).app().same_exit(old(self).app()),
    {
        self.application.remove_timer(timer_id);
    }

    /// Schedule a repeating callback under a fresh id; it first fires no
    /// earlier than `now + time`.
    pub fn set_interval(&mut self, now: u64, time: u64, f: P::IntervalCallback) -> (id: TimerId)
        requires
            old(self).app().interval_counter().0 < u32::MAX,
        ensures
            id.0 == old(self).app().interval_counter().0 + 1,
            final(self).app().intervals() == old(self).app().intervals().insert(
                id.0 as u64,
                (PendingInterval { last_fired: now, period: time, action: IntervalAction::User(f) }),
            ),
            final(self).app().interval_counter() == id,
            final(self).app().same_windows(old(self).app()),
            final(self).app().same_timers(old(self).app()),
            final(self).app().same_deferred(old(self).app()),
            final(self).app().same_exit(old(self).app()),
    {
        self.application.add_interval(now, time, IntervalAction::User(f))
    }

    /// Cancel an interval; a no-op if it is gone already.
    pub fn clear_interval(&mut self, timer_id: TimerId)
        ensures
            final(self).app().intervals() == old(self).app().intervals().remove(
                timer_id.0 as u64,
            ),
            final(self).app().interval_counter() == old(self).app().interval_counter(),
            final(self).app().same_windows(old(self).app()),
            final(self).app().same_timers(old(self).app()),
            final(self).app().same_deferred(old(self).app()),
            final(self).app().same_exit(old(self).app()),
    {
        self.application.remove_interval(timer_id);
    }

}

impl<'a, P: Platform> Context<'a, P> where P::Ui: crate::ui::UI<P> {
    /// Create a window for `config`, hand it the creation notification, and
    /// register it. The new window is observable through this context at its
    /// id as soon as this returns. `None` reports a construction failure at
    /// the platform boundary.
    pub fn new_window(&mut self, config: P::WindowConfig, ui: P::Ui) -> (r: Option<
        &mut Window<P>,
    >)
        ensures
            match r {
                Some(w) => {
                    &&& final(self).app().windows().contains_key(w.spec_id().0)
                    &&& final(self).app().windows()[w.spec_id().0] == *final(w)
                },
                None => final(self).app() == old(self).app(),
            },
    {
        match Window::new(self.event_loop, config, ui) {
            Some(mut window) => {
                let window_id = window.id();
                window.on_created(self.application, self.event_loop);
                self.application.add_window(window_id, window)
            },
            None => None,
        }
    }

}

impl<'a, P: Platform> Context<'a, P> {
    /// Borrow the registered window with this id, if it is there.
    pub fn get_mut_window(&mut self, window_id: WindowId) -> (r: Option<&mut Window<P>>)
        ensures
            match r {
                Some(w) => {
                    &&& old(self).app().windows().contains_key(window_id.0)
                    &&& *w == old(self).app().windows()[window_id.0]
                    &&& final(self).app().windows() == old(self).app().windows().insert(
                        window_id.0,
                        *final(w),
                    )
                },
                None => {
                    &&& !old(self).app().windows().contains_key(window_id.0)
                    &&& final(self).app() == old(self).app()
                },
            },
            final(self).app().same_timers(old(self).app()),
            final(self).app().same_intervals(old(self).app()),
            final(self).app().same_deferred(old(self).app()),
            final(self).app().same_exit(old(self).app()),
    {
        self.application.get_mut_window(window_id)
    }

    /// Schedule a one-shot action due at `now + time` under a fresh id; the
    /// window-scope context uses this to target its own window.
    pub(crate) fn add_timer_action(&mut self, now: u64, time: u64, action: TimerAction<P>) -> (id:
        TimerId)
        requires
            old(self).app().timer_counter().0 < u32::MAX,
            now + time <= u64::MAX,
        ensures
            id.0 == old(self).app().timer_counter().0 + 1,
            final(self).app().timers() == old(self).app().timers().insert(
                id.0 as u64,
                (PendingTimer { due: (now + time) as u64, action }),
            ),
            final(self).app().timer_counter() == id,
            final(self).app().same_windows(old(self).app()),
            final(self).app().same_intervals(old(self).app()),
            final(self).app().same_deferred(old(self).app()),
            final(self).app().same_exit(old(self).app()),
    {
        self.application.add_timer(now, time, action)
    }

    /// Schedule a repeating action under a fresh id; the window-scope context
    /// uses this to target its own window.
    pub(crate) fn add_interval_action(
        &mut self,
        now: u64,
        time: u64,
        action: IntervalAction<P>,
    ) -> (id: TimerId)
        requires
            old(self).app().interval_counter().0 < u32::MAX,
        ensures
            id.0 == old(self).app().interval_counter().0 + 1,
            final(self).app().intervals() == old(self).app().intervals().insert(
                id.0 as u64,
                (PendingInterval { last_fired: now, period: time, action }),
            ),
            final(self).app().interval_counter() == id,
            final(self).app().same_windows(old(self).app()),
            final(self).app().same_timers(old(self).app()),
            final(self).app().same_deferred(old(self).app()),
            final(self).app().same_exit(old(self).app()),
    {
        self.application.add_interval(now, time, action)
    }

    /// Enqueue a deferred request to close this window: nothing is removed
    /// now; the window goes when the driver next drains the queue.
    pub fn close_window(&mut self, window_id: WindowId)
        ensures
            final(self).app().deferred_requests() == old(self).app().deferred_requests().push(
                crate::custom_event::CustomEvent::CloseWindow(window_id),
            ),
            final(self).app().same_windows(old(self).app()),
            final(self).app().same_timers(old(self).app()),
            final(self).app().same_intervals(old(self).app()),
            final(self).app().same_exit(old(self).app()),
    {
        self.application.request_close_window(window_id);
    }

    /// Enqueue a deferred request to terminate the application.
    pub fn exit(&mut self)
        ensures
            final(self).app().deferred_requests() == old(self).app().deferred_requests().push(
                crate::custom_event::CustomEvent::Exit,
            ),
            final(self).app().same_windows(old(self).app()),
            final(self).app().same_timers(old(self).app()),
            final(self).app().same_intervals(old(self).app()),
            final(self).app().same_exit(old(self).app()),
    {
        self.application.request_exit();
    }
}

} // verus!
