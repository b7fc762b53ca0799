//! The run-loop driver: window registry, timer/interval scheduler and the
//! deferred request queue, all owned by [`Application`].

use vstd::prelude::*;
use crate::context::context::Context;
use crate::custom_event::CustomEvent;
use crate::event::ui_event::{UIEvent, WindowEvent, WindowEventKind};
use crate::event_handler::EventHandler;
use crate::platform::{Platform, WindowId};
use crate::table::Table;
use crate::window::Window;

verus! {

/// Handle for a one-shot timer or a repeating interval.
///
/// Monotonically incremented per counter (the scheduler keeps one counter for
/// timers and one for intervals), so a live id is never reused by the same
/// counter.
#[derive(Debug, Copy, Clone, PartialEq, Eq, Hash, Structural)]
pub struct TimerId(pub u32);

impl TimerId {
    /// The successor handle.
    pub fn next(&self) -> (r: Self)
        requires
            self.0 < u32::MAX,
        ensures
            r.0 == self.0 + 1,
    {
        Self(self.0 + 1)
    }
}

/// An application-scope one-shot timer callback: consumed by its single
/// invocation and never stored back.
pub trait TimerHandler<P: Platform>: Sized {
    /// Run the callback. Its timer entry has already been removed, so the
    /// callback may freely schedule or cancel timers, including its own id.
    fn invoke(self, id: TimerId, application: &mut Application<P>, event_loop: &P::Handle);
}

/// An application-scope repeating interval callback: invoked by reference so
/// the scheduler can reinsert it after each firing.
pub trait IntervalHandler<P: Platform>: Sized {
    /// Run the callback. Its interval entry is absent from the table for the
    /// duration of this call and is reinserted, rebased to the tick instant,
    /// afterwards.
    fn invoke(&self, id: TimerId, application: &mut Application<P>, event_loop: &P::Handle);
}

/// What a due one-shot timer runs.
pub enum TimerAction<P: Platform> {
    /// An application-scope callback handed in through `Context::set_timer`.
    User(P::TimerCallback),
    /// Checked-out dispatch of `UIEvent::TimerOut` to the window with this
    /// id, as scheduled by `WindowContext::add_timer`.
    WindowTimeout(WindowId),
}

/// What a due interval runs on each firing.
pub enum IntervalAction<P: Platform> {
    /// An application-scope callback handed in through `Context::set_interval`.
    User(P::IntervalCallback),
    /// Checked-out dispatch of `UIEvent::Interval` to the window with this
    /// id, as scheduled by `WindowContext::add_interval`.
    WindowInterval(WindowId),
}

/// A scheduled one-shot timer: consumed and removed exactly once when due.
pub struct PendingTimer<P: Platform> {
    /// The instant at or after which the timer fires.
    pub due: u64,
    /// The callback run at firing.
    pub action: TimerAction<P>,
}

/// A scheduled repeating interval. On each firing the entry is removed,
/// invoked, then reinserted with `last_fired` rebased to the tick instant:
/// intervals do not make up for missed ticks, they wait a full period again.
pub struct PendingInterval<P: Platform> {
    /// The instant of the previous firing (or of scheduling).
    pub last_fired: u64,
    /// The minimum separation between firings.
    pub period: u64,
    /// The callback run at each firing.
    pub action: IntervalAction<P>,
}

/// A one-shot timer is due once the instant `now` reaches its due time.
pub open spec fn timer_due<P: Platform>(timer: PendingTimer<P>, now: u64) -> bool {
    now >= timer.due
}

/// An interval is due once a full period has passed since it last fired.
pub open spec fn interval_due<P: Platform>(interval: PendingInterval<P>, now: u64) -> bool {
    now >= interval.last_fired + interval.period
}

/// The effect of one drained deferred request on the registry contents and
/// the exit flag: a close request removes the window (a no-op when it is
/// already gone) and asks the loop to exit when no window remains; an exit
/// request sets the flag.
pub open spec fn apply_request<P: Platform>(
    windows: Map<u64, Window<P>>,
    exit: bool,
    request: CustomEvent,
) -> (Map<u64, Window<P>>, bool) {
    match request {
        CustomEvent::CloseWindow(window_id) => (
            windows.remove(window_id.0),
            exit || windows.remove(window_id.0).len() == 0,
        ),
        CustomEvent::Exit => (windows, true),
    }
}

/// The effect of draining a queue of deferred requests in enqueue order,
/// each handled exactly once.
pub open spec fn apply_requests<P: Platform>(
    windows: Map<u64, Window<P>>,
    exit: bool,
    requests: Seq<CustomEvent>,
) -> (Map<u64, Window<P>>, bool)
    decreases requests.len(),
{
    if requests.len() == 0 {
        (windows, exit)
    } else {
        let (w, e) = apply_request(windows, exit, requests.first());
        apply_requests(w, e, requests.drop_first())
    }
}

/// Draining a queue and then one more request is the same as draining the
/// queue with that request appended.
pub proof fn lemma_apply_requests_snoc<P: Platform>(
    windows: Map<u64, Window<P>>,
    exit: bool,
    requests: Seq<CustomEvent>,
    request: CustomEvent,
)
    ensures
        apply_requests(windows, exit, requests.push(request)) == ({
            let (w, e) = apply_requests(windows, exit, requests);
            apply_request(w, e, request)
        }),
    decreases requests.len(),
{
    if requests.len() == 0 {
        assert(requests.push(request).first() == request);
        assert(requests.push(request).drop_first() =~= Seq::<CustomEvent>::empty());
        let (w1, e1) = apply_request(windows, exit, request);
        assert(apply_requests(windows, exit, requests.push(request)) == apply_requests(
            w1,
            e1,
            requests.push(request).drop_first(),
        ));
        assert(apply_requests(w1, e1, requests.push(request).drop_first()) == (w1, e1));
        assert(apply_requests(windows, exit, requests) == (windows, exit));
    } else {
        assert(requests.push(request).first() == requests.first());
        assert(requests.push(request).drop_first() =~= requests.drop_first().push(request));
        let (w1, e1) = apply_request(windows, exit, requests.first());
        lemma_apply_requests_snoc(w1, e1, requests.drop_first(), request);
        assert(apply_requests(windows, exit, requests.push(request)) == apply_requests(
            w1,
            e1,
            requests.drop_first().push(request),
        ));
        assert(apply_requests(windows, exit, requests) == apply_requests(
            w1,
            e1,
            requests.drop_first(),
        ));
    }
}

/// One platform loop event, as the unverified shell hands it to
/// [`Application::run_iteration`].
pub enum LoopEvent<P: Platform> {
    /// The platform loop just started.
    Init,
    /// A platform event for the window with this identifier.
    Window {
        /// The identifier the event is keyed by.
        window_id: WindowId,
        /// The event itself.
        event: WindowEvent<P>,
    },
    /// A lifecycle request delivered through the platform's own channel.
    User(CustomEvent),
    /// Any other loop event; ignored by the driver.
    Other,
}

/// The lifecycle request that a loop event itself carries: an explicit
/// deferred request delivered through the platform channel, or the close
/// sequence that a platform close request triggers.
pub open spec fn direct_request<P: Platform>(event: LoopEvent<P>) -> Option<CustomEvent> {
    match event {
        LoopEvent::Init => None,
        LoopEvent::Window { window_id, event } => if event.kind is CloseRequested {
            Some(CustomEvent::CloseWindow(window_id))
        } else {
            None
        },
        LoopEvent::User(request) => Some(request),
        LoopEvent::Other => None,
    }
}

/// Whether an iteration over `event` at instant `now` reaches any user
/// callback: a due timer or interval runs one, the startup event runs the
/// init handler if one is registered, and a window event is dispatched to
/// the window's UI unless the event is the platform's close request (the
/// close sequence removes the window before dispatch would reach it) or the
/// window is not registered.
pub open spec fn reaches_user_code<P: Platform>(
    pre: Application<P>,
    handler: EventHandler<P>,
    now: u64,
    event: LoopEvent<P>,
) -> bool {
    ||| !pre.no_timer_due(now)
    ||| !pre.no_interval_due(now)
    ||| (event is Init && handler.spec_init_handler() is Some)
    ||| match event {
        LoopEvent::Window { window_id, event } => !(event.kind is CloseRequested)
            && pre.windows().contains_key(window_id.0),
        _ => false,
    }
}

/// The run-loop driver's state: the owning registry of live windows, the
/// timer and interval tables with their id counters, the deferred request
/// queue, and the terminal flag that tells the platform loop to exit.
pub struct Application<P: Platform> {
    window_map: Table<Window<P>>,
    timer_map: Table<PendingTimer<P>>,
    timer_id: TimerId,
    interval_map: Table<PendingInterval<P>>,
    interval_id: TimerId,
    deferred: Vec<CustomEvent>,
    exit: bool,
}

impl<P: Platform> Application<P> {
    /// Each table is well formed, and every live timer or interval id is
    /// covered by its counter, so a fresh id never collides.
    #[verifier::type_invariant]
    spec fn inv(self) -> bool {
        &&& self.window_map.wf()
        &&& self.timer_map.wf()
        &&& self.interval_map.wf()
        &&& forall|k: u64| #[trigger] self.timer_map@.contains_key(k) ==> k <= self.timer_id.0
        &&& forall|k: u64|
            #[trigger] self.interval_map@.contains_key(k) ==> k <= self.interval_id.0
    }

    /// The live windows, keyed by window identifier.
    pub closed spec fn windows(self) -> Map<u64, Window<P>> {
        self.window_map@
    }

    /// The pending one-shot timers, keyed by timer id.
    pub closed spec fn timers(self) -> Map<u64, PendingTimer<P>> {
        self.timer_map@
    }

    /// The scheduled intervals, keyed by interval id.
    pub closed spec fn intervals(self) -> Map<u64, PendingInterval<P>> {
        self.interval_map@
    }

    /// The last one-shot timer id handed out.
    pub closed spec fn timer_counter(self) -> TimerId {
        self.timer_id
    }

    /// The last interval id handed out.
    pub closed spec fn interval_counter(self) -> TimerId {
        self.interval_id
    }

    /// The deferred requests not yet drained, in enqueue order.
    pub closed spec fn deferred_requests(self) -> Seq<CustomEvent> {
        self.deferred@
    }

    /// Whether the driver has asked the platform loop to exit.
    pub closed spec fn exit_requested(self) -> bool {
        self.exit
    }

    /// The registry is unchanged between the two states.
    pub open spec fn same_windows(self, other: Self) -> bool {
        self.windows() == other.windows()
    }

    /// The one-shot timer table and its counter are unchanged.
    pub open spec fn same_timers(self, other: Self) -> bool {
        self.timers() == other.timers() && self.timer_counter() == other.timer_counter()
    }

    /// The interval table and its counter are unchanged.
    pub open spec fn same_intervals(self, other: Self) -> bool {
        self.intervals() == other.intervals() && self.interval_counter()
            == other.interval_counter()
    }

    /// The deferred request queue is unchanged.
    pub open spec fn same_deferred(self, other: Self) -> bool {
        self.deferred_requests() == other.deferred_requests()
    }

    /// The exit flag is unchanged.
    pub open spec fn same_exit(self, other: Self) -> bool {
        self.exit_requested() == other.exit_requested()
    }

    /// No one-shot timer is due at `now`.
    pub open spec fn no_timer_due(self, now: u64) -> bool {
        forall|k: u64|
            #[trigger] self.timers().contains_key(k) ==> !timer_due(self.timers()[k], now)
    }

    /// No interval is due at `now`.
    pub open spec fn no_interval_due(self, now: u64) -> bool {
        forall|k: u64|
            #[trigger] self.intervals().contains_key(k) ==> !interval_due(
                self.intervals()[k],
                now,
            )
    }

    /// A fresh driver: no windows, no timers, no intervals, an empty queue,
    /// exit not requested.
    pub fn new() -> (r: Self)
        ensures
            r.windows() == Map::<u64, Window<P>>::empty(),
            r.timers() == Map::<u64, PendingTimer<P>>::empty(),
            r.intervals() == Map::<u64, PendingInterval<P>>::empty(),
            r.timer_counter().0 == 0,
            r.interval_counter().0 == 0,
            r.deferred_requests() == Seq::<CustomEvent>::empty(),
            !r.exit_requested(),
    {
        Application {
            window_map: Table::new(),
            timer_map: Table::new(),
            timer_id: TimerId(0),
            interval_map: Table::new(),
            interval_id: TimerId(0),
            deferred: Vec::new(),
            exit: false,
        }
    }

    /// Schedule a one-shot callback due at `now + time`, under a fresh id.
    pub fn add_timer(&mut self, now: u64, time: u64, f: TimerAction<P>) -> (id: TimerId)
        requires
            old(self).timer_counter().0 < u32::MAX,
            now + time <= u64::MAX,
        ensures
            id.0 == old(self).timer_counter().0 + 1,
            !old(self).timers().contains_key(id.0 as u64),
            final(self).timers() == old(self).timers().insert(
                id.0 as u64,
                (PendingTimer { due: (now + time) as u64, action: f }),
            ),
            final(self).timer_counter() == id,
            final(self).same_windows(*old(self)),
            final(self).same_intervals(*old(self)),
            final(self).same_deferred(*old(self)),
            final(self).same_exit(*old(self)),
    {
        proof {
            use_type_invariant(&*self);
        }
        let id = self.timer_id.next();
        self.timer_id = id;
        let mut t = Table::new();
        std::mem::swap(&mut t, &mut self.timer_map);
        let _ = t.insert(id.0 as u64, PendingTimer { due: now + time, action: f });
        self.timer_map = t;
        id
    }

    /// Cancel a one-shot timer: removes its entry if it is still pending; a
    /// no-op when it already fired, was cancelled, or never existed.
    pub fn remove_timer(&mut self, timer_id: TimerId)
        ensures
            final(self).timers() == old(self).timers().remove(timer_id.0 as u64),
            final(self).timer_counter() == old(self).timer_counter(),
            final(self).same_windows(*old(self)),
            final(self).same_intervals(*old(self)),
            final(self).same_deferred(*old(self)),
            final(self).same_exit(*old(self)),
    {
        proof {
            use_type_invariant(&*self);
        }
        let mut t = Table::new();
        std::mem::swap(&mut t, &mut self.timer_map);
        let _ = t.remove(timer_id.0 as u64);
        self.timer_map = t;
    }

    /// Schedule a repeating callback under a fresh id; its first firing comes
    /// no earlier than `now + time`.
    pub fn add_interval(&mut self, now: u64, time: u64, f: IntervalAction<P>) -> (id: TimerId)
        requires
            old(self).interval_counter().0 < u32::MAX,
        ensures
            id.0 == old(self).interval_counter().0 + 1,
            !old(self).intervals().contains_key(id.0 as u64),
            final(self).intervals() == old(self).intervals().insert(
                id.0 as u64,
                (PendingInterval { last_fired: now, period: time, action: f }),
            ),
            final(self).interval_counter() == id,
            final(self).same_windows(*old(self)),
            final(self).same_timers(*old(self)),
            final(self).same_deferred(*old(self)),
            final(self).same_exit(*old(self)),
    {
        proof {
            use_type_invariant(&*self);
        }
        let id = self.interval_id.next();
        self.interval_id = id;
        let mut t = Table::new();
        std::mem::swap(&mut t, &mut self.interval_map);
        let _ = t.insert(id.0 as u64, PendingInterval { last_fired: now, period: time, action: f });
        self.interval_map = t;
        id
    }

    /// Cancel an interval: removes its entry if present; a no-op otherwise.
    pub fn remove_interval(&mut self, timer_id: TimerId)
        ensures
            final(self).intervals() == old(self).intervals().remove(timer_id.0 as u64),
            final(self).interval_counter() == old(self).interval_counter(),
            final(self).same_windows(*old(self)),
            final(self).same_timers(*old(self)),
            final(self).same_deferred(*old(self)),
            final(self).same_exit(*old(self)),
    {
        proof {
            use_type_invariant(&*self);
        }
        let mut t = Table::new();
        std::mem::swap(&mut t, &mut self.interval_map);
        let _ = t.remove(timer_id.0 as u64);
        self.interval_map = t;
    }

    /// Register a window under `window_id`, replacing any window already
    /// there, and return a borrow of the registered window.
    pub fn add_window(&mut self, window_id: WindowId, window: Window<P>) -> (r: Option<
        &mut Window<P>,
    >)
        ensures
            match r {
                Some(w) => *w == window && final(self).windows() == old(self).windows().insert(
                    window_id.0,
                    *final(w),
                ),
                None => false,
            },
            final(self).same_timers(*old(self)),
            final(self).same_intervals(*old(self)),
            final(self).same_deferred(*old(self)),
            final(self).same_exit(*old(self)),
    {
        self.check_in_window(window_id, window);
        proof {
            let m = old(self).windows();
            let k = window_id.0;
            assert forall|x: Window<P>| #[trigger] m.insert(k, window).insert(k, x) == m.insert(
                k,
                x,
            ) by {
                assert(m.insert(k, window).insert(k, x) =~= m.insert(k, x));
            }
        }
        self.get_mut_window(window_id)
    }

    /// Move a window into the registry under `window_id` (check in).
    pub(crate) fn check_in_window(&mut self, window_id: WindowId, window: Window<P>)
        ensures
            final(self).windows() == old(self).windows().insert(window_id.0, window),
            final(self).same_timers(*old(self)),
            final(self).same_intervals(*old(self)),
            final(self).same_deferred(*old(self)),
            final(self).same_exit(*old(self)),
    {
        proof {
            use_type_invariant(&*self);
        }
        let mut t = Table::new();
        std::mem::swap(&mut t, &mut self.window_map);
        let _ = t.insert(window_id.0, window);
        self.window_map = t;
    }

    /// Take the window with this identifier out of the registry (check out),
    /// if it is there.
    pub fn remove_window(&mut self, window_id: WindowId) -> (r: Option<Window<P>>)
        ensures
            final(self).windows() == old(self).windows().remove(window_id.0),
            match r {
                Some(w) => old(self).windows().contains_key(window_id.0) && w == old(
                    self,
                ).windows()[window_id.0],
                None => !old(self).windows().contains_key(window_id.0) && *final(self) == *old(
                    self,
                ),
            },
            final(self).same_timers(*old(self)),
            final(self).same_intervals(*old(self)),
            final(self).same_deferred(*old(self)),
            final(self).same_exit(*old(self)),
    {
        proof {
            use_type_invariant(&*self);
        }
        let mut t = Table::new();
        std::mem::swap(&mut t, &mut self.window_map);
        let r = t.remove(window_id.0);
        self.window_map = t;
        r
    }

    /// Borrow the window with this identifier mutably, if it is registered.
    pub fn get_mut_window(&mut self, window_id: WindowId) -> (r: Option<&mut Window<P>>)
        ensures
            match r {
                Some(w) => {
                    &&& old(self).windows().contains_key(window_id.0)
                    &&& *w == old(self).windows()[window_id.0]
                    &&& final(self).windows() == old(self).windows().insert(
                        window_id.0,
                        *final(w),
                    )
                },
                None => {
                    &&& !old(self).windows().contains_key(window_id.0)
                    &&& *final(self) == *old(self)
                },
            },
            final(self).same_timers(*old(self)),
            final(self).same_intervals(*old(self)),
            final(self).same_deferred(*old(self)),
            final(self).same_exit(*old(self)),
    {
        proof {
            use_type_invariant(&*self);
        }
        self.window_map.get_mut(window_id.0)
    }

    /// The number of live windows; zero is the application's termination
    /// trigger.
    pub fn count_window(&mut self) -> (r: usize)
        ensures
            *final(self) == *old(self),
            r == old(self).windows().len(),
            old(self).windows().dom().finite(),
    {
        proof {
            use_type_invariant(&*self);
            self.window_map.lemma_view_finite();
        }
        self.window_map.len()
    }

    /// Whether the driver has asked the platform loop to exit; the loop shell
    /// polls this after each iteration and stops pumping events once it is
    /// set.
    pub fn should_exit(&self) -> (r: bool)
        ensures
            r == self.exit_requested(),
        no_unwind
    {
        self.exit
    }

    /// Enqueue a deferred request to close this window on the next drain.
    /// The registry is not touched here: the window stays until the drain.
    pub fn request_close_window(&mut self, window_id: WindowId)
        ensures
            final(self).deferred_requests() == old(self).deferred_requests().push(
                CustomEvent::CloseWindow(window_id),
            ),
            final(self).same_windows(*old(self)),
            final(self).same_timers(*old(self)),
            final(self).same_intervals(*old(self)),
            final(self).same_exit(*old(self)),
    {
        proof {
            use_type_invariant(&*self);
        }
        let mut q: Vec<CustomEvent> = Vec::new();
        std::mem::swap(&mut q, &mut self.deferred);
        q.push(CustomEvent::CloseWindow(window_id));
        self.deferred = q;
    }

    /// Enqueue a deferred request to terminate the loop on the next drain.
    pub fn request_exit(&mut self)
        ensures
            final(self).deferred_requests() == old(self).deferred_requests().push(
                CustomEvent::Exit,
            ),
            final(self).same_windows(*old(self)),
            final(self).same_timers(*old(self)),
            final(self).same_intervals(*old(self)),
            final(self).same_exit(*old(self)),
    {
        proof {
            use_type_invariant(&*self);
        }
        let mut q: Vec<CustomEvent> = Vec::new();
        std::mem::swap(&mut q, &mut self.deferred);
        q.push(CustomEvent::Exit);
        self.deferred = q;
    }

    /// The application's close sequence: remove the window, run its shutdown
    /// notification, then request exit if no window remains.
    fn do_close_window(&mut self, window_id: WindowId)
        ensures
            final(self).windows() == old(self).windows().remove(window_id.0),
            final(self).exit_requested() == (old(self).exit_requested() || old(
                self,
            ).windows().remove(window_id.0).len() == 0),
            final(self).same_timers(*old(self)),
            final(self).same_intervals(*old(self)),
            final(self).same_deferred(*old(self)),
    {
        let removed = self.remove_window(window_id);
        if let Some(window) = removed {
            window.on_close();
        }
        if self.count_window() == 0 {
            proof {
                use_type_invariant(&*self);
            }
            self.exit = true;
        }
    }

    /// Collect the ids of exactly the one-shot timers due at `now`, before
    /// anything is mutated.
    fn due_timer_ids(&self, now: u64) -> (r: Vec<u64>)
        ensures
            forall|j: int|
                0 <= j < r@.len() ==> self.timers().contains_key(#[trigger] r@[j]) && timer_due(
                    self.timers()[r@[j]],
                    now,
                ),
            forall|k: u64|
                self.timers().contains_key(k) && timer_due(self.timers()[k], now)
                    ==> #[trigger] r@.contains(k),
            self.no_timer_due(now) ==> r@.len() == 0,
    {
        proof {
            use_type_invariant(self);
        }
        let keys = self.timer_map.keys();
        let n: usize = keys.len();
        let mut r: Vec<u64> = Vec::new();
        let mut i: usize = 0;
        while i < n
            invariant
                n == keys@.len(),
                i <= n,
                self.timer_map.wf(),
                forall|j: int| 0 <= j < keys@.len() ==> self.timers().contains_key(#[trigger] keys@[j]),
                forall|j: int|
                    0 <= j < r@.len() ==> self.timers().contains_key(#[trigger] r@[j]) && timer_due(
                        self.timers()[r@[j]],
                        now,
                    ),
                forall|j: int|
                    0 <= j < i && timer_due(self.timers()[#[trigger] keys@[j]], now)
                        ==> r@.contains(keys@[j]),
            decreases n - i,
        {
            let k: u64 = keys[i];
            match self.timer_map.get(k) {
                Some(pending) => {
                    if now >= pending.due {
                        let ghost r0 = r@;
                        r.push(k);
                        proof {
                            assert(r@[r@.len() - 1] == k);
                            assert forall|x: u64| r0.contains(x) implies r@.contains(x) by {
                                let w: int = choose|w: int| 0 <= w < r0.len() && r0[w] == x;
                                assert(r@[w] == x);
                            }
                        }
                    }
                },
                None => {},
            }
            i = i + 1;
        }
        proof {
            assert forall|k: u64|
                self.timers().contains_key(k) && timer_due(self.timers()[k], now)
                    implies #[trigger] r@.contains(k) by {
                assert(keys@.contains(k));
                let j: int = choose|j: int| 0 <= j < keys@.len() && keys@[j] == k;
                assert(timer_due(self.timers()[keys@[j]], now));
            }
            if self.no_timer_due(now) && r@.len() > 0 {
                assert(self.timers().contains_key(r@[0]));
                assert(timer_due(self.timers()[r@[0]], now));
                assert(!timer_due(self.timers()[r@[0]], now));
            }
        }
        r
    }

    /// Remove and return the pending timer under this id, if any.
    fn take_timer_entry(&mut self, id: u64) -> (r: Option<PendingTimer<P>>)
        ensures
            final(self).timers() == old(self).timers().remove(id),
            match r {
                Some(pending) => {
                    &&& old(self).timers().contains_key(id)
                    &&& pending == old(self).timers()[id]
                    &&& id <= u32::MAX as u64
                },
                None => !old(self).timers().contains_key(id) && *final(self) == *old(self),
            },
            final(self).timer_counter() == old(self).timer_counter(),
            final(self).same_windows(*old(self)),
            final(self).same_intervals(*old(self)),
            final(self).same_deferred(*old(self)),
            final(self).same_exit(*old(self)),
    {
        proof {
            use_type_invariant(&*self);
        }
        let mut t = Table::new();
        std::mem::swap(&mut t, &mut self.timer_map);
        let r = t.remove(id);
        self.timer_map = t;
        r
    }

    /// Collect the ids of exactly the intervals due at `now`.
    fn due_interval_ids(&self, now: u64) -> (r: Vec<u64>)
        ensures
            forall|j: int|
                0 <= j < r@.len() ==> self.intervals().contains_key(#[trigger] r@[j])
                    && interval_due(self.intervals()[r@[j]], now),
            forall|k: u64|
                self.intervals().contains_key(k) && interval_due(self.intervals()[k], now)
                    ==> #[trigger] r@.contains(k),
            self.no_interval_due(now) ==> r@.len() == 0,
    {
        proof {
            use_type_invariant(self);
        }
        let keys = self.interval_map.keys();
        let n: usize = keys.len();
        let mut r: Vec<u64> = Vec::new();
        let mut i: usize = 0;
        while i < n
            invariant
                n == keys@.len(),
                i <= n,
                self.interval_map.wf(),
                forall|j: int|
                    0 <= j < keys@.len() ==> self.intervals().contains_key(#[trigger] keys@[j]),
                forall|j: int|
                    0 <= j < r@.len() ==> self.intervals().contains_key(#[trigger] r@[j])
                        && interval_due(self.intervals()[r@[j]], now),
                forall|j: int|
                    0 <= j < i && interval_due(self.intervals()[#[trigger] keys@[j]], now)
                        ==> r@.contains(keys@[j]),
            decreases n - i,
        {
            let k: u64 = keys[i];
            match self.interval_map.get(k) {
                Some(pending) => {
                    if now >= pending.last_fired && now - pending.last_fired >= pending.period {
                        let ghost r0 = r@;
                        r.push(k);
                        proof {
                            assert(r@[r@.len() - 1] == k);
                            assert forall|x: u64| r0.contains(x) implies r@.contains(x) by {
                                let w: int = choose|w: int| 0 <= w < r0.len() && r0[w] == x;
                                assert(r@[w] == x);
                            }
                        }
                    }
                },
                None => {},
            }
            i = i + 1;
        }
        proof {
            assert forall|k: u64|
                self.intervals().contains_key(k) && interval_due(self.intervals()[k], now)
                    implies #[trigger] r@.contains(k) by {
                assert(keys@.contains(k));
                let j: int = choose|j: int| 0 <= j < keys@.len() && keys@[j] == k;
                assert(interval_due(self.intervals()[keys@[j]], now));
            }
            if self.no_interval_due(now) && r@.len() > 0 {
                assert(self.intervals().contains_key(r@[0]));
                assert(interval_due(self.intervals()[r@[0]], now));
                assert(!interval_due(self.intervals()[r@[0]], now));
            }
        }
        r
    }

    /// Remove and return the interval under this id, if any.
    fn take_interval_entry(&mut self, id: u64) -> (r: Option<PendingInterval<P>>)
        ensures
            final(self).intervals() == old(self).intervals().remove(id),
            match r {
                Some(pending) => {
                    &&& old(self).intervals().contains_key(id)
                    &&& pending == old(self).intervals()[id]
                    &&& id <= u32::MAX as u64
                },
                None => !old(self).intervals().contains_key(id) && *final(self) == *old(self),
            },
            final(self).interval_counter() == old(self).interval_counter(),
            final(self).same_windows(*old(self)),
            final(self).same_timers(*old(self)),
            final(self).same_deferred(*old(self)),
            final(self).same_exit(*old(self)),
    {
        proof {
            use_type_invariant(&*self);
        }
        let mut t = Table::new();
        std::mem::swap(&mut t, &mut self.interval_map);
        let r = t.remove(id);
        self.interval_map = t;
        r
    }

    /// Reinsert a fired interval, rebased so that its next firing waits a
    /// full period from `now`. The counter is kept ahead of every live id.
    fn restore_interval(&mut self, id: u64, now: u64, period: u64, action: IntervalAction<P>)
        requires
            id <= u32::MAX as u64,
        ensures
            final(self).intervals() == old(self).intervals().insert(
                id,
                (PendingInterval { last_fired: now, period, action }),
            ),
            final(self).same_windows(*old(self)),
            final(self).same_timers(*old(self)),
            final(self).same_deferred(*old(self)),
            final(self).same_exit(*old(self)),
    {
        proof {
            use_type_invariant(&*self);
        }
        if (self.interval_id.0 as u64) < id {
            self.interval_id = TimerId(id as u32);
        }
        let mut t = Table::new();
        std::mem::swap(&mut t, &mut self.interval_map);
        let _ = t.insert(id, PendingInterval { last_fired: now, period, action });
        self.interval_map = t;
    }

    /// Drain the deferred request queue: handle each request exactly once,
    /// in enqueue order, leaving the queue empty.
    pub fn drain_deferred(&mut self)
        ensures
            final(self).deferred_requests().len() == 0,
            ({
                let (w, e) = apply_requests(
                    old(self).windows(),
                    old(self).exit_requested(),
                    old(self).deferred_requests(),
                );
                final(self).windows() == w && final(self).exit_requested() == e
            }),
            final(self).same_timers(*old(self)),
            final(self).same_intervals(*old(self)),
    {
        proof {
            use_type_invariant(&*self);
        }
        let mut q: Vec<CustomEvent> = Vec::new();
        std::mem::swap(&mut q, &mut self.deferred);
        let n: usize = q.len();
        let mut i: usize = 0;
        while i < n
            invariant
                n == q@.len(),
                i <= n,
                q@ == old(self).deferred_requests(),
                self.deferred_requests().len() == 0,
                (self.windows(), self.exit_requested()) == apply_requests(
                    old(self).windows(),
                    old(self).exit_requested(),
                    q@.take(i as int),
                ),
                self.same_timers(*old(self)),
                self.same_intervals(*old(self)),
            decreases n - i,
        {
            let request = q[i];
            match request {
                CustomEvent::CloseWindow(window_id) => self.do_close_window(window_id),
                CustomEvent::Exit => {
                    proof {
                        use_type_invariant(&*self);
                    }
                    self.exit = true;
                },
            }
            proof {
                lemma_apply_requests_snoc(
                    old(self).windows(),
                    old(self).exit_requested(),
                    q@.take(i as int),
                    q@[i as int],
                );
                assert(q@.take(i + 1 as int) =~= q@.take(i as int).push(q@[i as int]));
            }
            i = i + 1;
        }
        proof {
            assert(q@.take(n as int) =~= q@);
        }
    }

}

impl<P: Platform> Application<P> where
    P::Ui: crate::ui::UI<P>,
    P::TimerCallback: TimerHandler<P>,
    P::IntervalCallback: IntervalHandler<P>,
    P::InitCallback: crate::event_handler::InitHandler<P>,
 {
    /// Checked-out dispatch: take the window out of the registry, hand the
    /// event to it together with mutable access to this driver, and put the
    /// window back in unconditionally. A window the registry does not hold
    /// receives nothing; a held window is held again when dispatch returns,
    /// whatever the callback did meanwhile.
    pub fn dispatch_to_window(
        &mut self,
        event_loop: &P::Handle,
        window_id: WindowId,
        event: UIEvent<P>,
    )
        ensures
            !old(self).windows().contains_key(window_id.0) ==> *final(self) == *old(self),
            final(self).windows().contains_key(window_id.0) == old(self).windows().contains_key(
                window_id.0,
            ),
            old(self).windows().contains_key(window_id.0) ==> final(self).windows()[
                window_id.0
            ].spec_id() == old(self).windows()[window_id.0].spec_id(),
    {
        if let Some(mut window) = self.remove_window(window_id) {
            window.dispatch(event, self, event_loop);
            self.check_in_window(window_id, window);
        }
    }

    /// The scheduler's one-shot tick: snapshot the ids due at `now`, then
    /// for each id still pending, remove its entry and run its callback.
    /// A callback that cancels a not-yet-run due timer prevents that firing;
    /// firing order within one tick is arbitrary.
    pub fn check_and_run_timer(&mut self, event_loop: &P::Handle, now: u64)
        ensures
            old(self).no_timer_due(now) ==> *final(self) == *old(self),
    {
        proof {
            use_type_invariant(&*self);
        }
        if self.timer_map.len() == 0 {
            return ;
        }
        let ids = self.due_timer_ids(now);
        let n: usize = ids.len();
        let mut i: usize = 0;
        while i < n
            invariant
                n == ids@.len(),
                i <= n,
                n == 0 ==> *self == *old(self),
            decreases n - i,
        {
            let id: u64 = ids[i];
            match self.take_timer_entry(id) {
                Some(pending) => {
                    let tid = TimerId(id as u32);
                    match pending.action {
                        TimerAction::User(f) => f.invoke(tid, self, event_loop),
                        TimerAction::WindowTimeout(window_id) => self.dispatch_to_window(
                            event_loop,
                            window_id,
                            UIEvent::TimerOut(tid),
                        ),
                    }
                },
                None => {},
            }
            i = i + 1;
        }
    }

    /// The scheduler's interval tick: snapshot the ids due at `now`, then for
    /// each id still present, remove its entry, run its callback (the entry
    /// stays absent for the duration of the call), and reinsert it rebased to
    /// `now`. Firing order within one tick is arbitrary.
    pub fn check_and_run_interval(&mut self, event_loop: &P::Handle, now: u64)
        ensures
            old(self).no_interval_due(now) ==> *final(self) == *old(self),
    {
        proof {
            use_type_invariant(&*self);
        }
        if self.interval_map.len() == 0 {
            return ;
        }
        let ids = self.due_interval_ids(now);
        let n: usize = ids.len();
        let mut i: usize = 0;
        while i < n
            invariant
                n == ids@.len(),
                i <= n,
                n == 0 ==> *self == *old(self),
            decreases n - i,
        {
            let id: u64 = ids[i];
            match self.take_interval_entry(id) {
                Some(pending) => {
                    let tid = TimerId(id as u32);
                    match &pending.action {
                        IntervalAction::User(f) => f.invoke(tid, self, event_loop),
                        IntervalAction::WindowInterval(window_id) => {
                            let w = *window_id;
                            self.dispatch_to_window(event_loop, w, UIEvent::Interval(tid));
                        },
                    }
                    self.restore_interval(id, now, pending.period, pending.action);
                },
                None => {},
            }
            i = i + 1;
        }
    }

    /// One full loop iteration, in the driver's fixed order: run due timers,
    /// run due intervals, handle the platform event, then drain the deferred
    /// request queue. Once exit has been requested the driver is terminal:
    /// nothing further is run or dispatched.
    pub fn run_iteration(
        &mut self,
        event_loop: &P::Handle,
        event_handler: &EventHandler<P>,
        now: u64,
        event: LoopEvent<P>,
    )
        ensures
            old(self).exit_requested() ==> *final(self) == *old(self),
            !old(self).exit_requested() && !reaches_user_code(
                *old(self),
                *event_handler,
                now,
                event,
            ) ==> ({
                let (w1, e1) = match direct_request(event) {
                    Some(request) => apply_request(
                        old(self).windows(),
                        old(self).exit_requested(),
                        request,
                    ),
                    None => (old(self).windows(), old(self).exit_requested()),
                };
                let (w2, e2) = apply_requests(w1, e1, old(self).deferred_requests());
                &&& final(self).windows() == w2
                &&& final(self).exit_requested() == e2
                &&& final(self).same_timers(*old(self))
                &&& final(self).same_intervals(*old(self))
                &&& final(self).deferred_requests().len() == 0
            }),
    {
        if self.exit {
            return ;
        }
        self.check_and_run_timer(event_loop, now);
        self.check_and_run_interval(event_loop, now);
        match event {
            LoopEvent::Init => {
                if event_handler.has_init_handler() {
                    let mut context = Context::new(self, event_loop);
                    event_handler.on_init(&mut context);
                }
            },
            LoopEvent::Window { window_id, event } => {
                if let WindowEventKind::CloseRequested = event.kind {
                    self.do_close_window(window_id);
                }
                self.dispatch_to_window(event_loop, window_id, UIEvent::Other(event));
            },
            LoopEvent::User(request) => {
                match request {
                    CustomEvent::CloseWindow(window_id) => self.do_close_window(window_id),
                    CustomEvent::Exit => {
                        proof {
                            use_type_invariant(&*self);
                        }
                        self.exit = true;
                    },
                }
            },
            LoopEvent::Other => {},
        }
        self.drain_deferred();
    }
}

/// Registry invariant, replacement half: a second insert under the same id
/// replaces the first — two windows never silently coexist under one id.
pub proof fn lemma_registry_insert_replaces<P: Platform>(
    windows: Map<u64, Window<P>>,
    id: u64,
    first: Window<P>,
    second: Window<P>,
)
    ensures
        windows.insert(id, first).insert(id, second) == windows.insert(id, second),
{
    assert(windows.insert(id, first).insert(id, second) =~= windows.insert(id, second));
}

/// Registry invariant, counting half: the count `count_window` reports moves
/// by exactly one id on insert and remove, so it always equals the number of
/// identifiers for which `get_mut_window` finds a window.
pub proof fn lemma_registry_count<P: Platform>(
    windows: Map<u64, Window<P>>,
    id: u64,
    window: Window<P>,
)
    requires
        windows.dom().finite(),
    ensures
        windows.insert(id, window).len() == windows.len() + (if windows.contains_key(id) {
            0int
        } else {
            1
        }),
        windows.remove(id).len() == windows.len() - (if windows.contains_key(id) {
            1int
        } else {
            0
        }),
{
    vstd::set::axiom_set_insert_len(windows.dom(), id);
    vstd::set::axiom_set_remove_len(windows.dom(), id);
}

/// Checked-out dispatch: a window registered during dispatch (for instance by
/// `Context::new_window` from inside a `handle_event` callback) is observable
/// at once under its id. The other half of the property — a dispatched
/// window is never absent once dispatch returns — is the contract of
/// [`Application::dispatch_to_window`].
pub proof fn lemma_new_window_visible<P: Platform>(
    windows: Map<u64, Window<P>>,
    id: u64,
    window: Window<P>,
)
    ensures
        windows.insert(id, window).contains_key(id),
        windows.insert(id, window)[id] == window,
{
}

/// Timer idempotence: cancelling the same id twice is a no-op both times, and
/// a fired timer — whose entry the tick removed — is gone for good, so it can
/// never fire again.
pub proof fn lemma_cancel_timer_idempotent<P: Platform>(
    timers: Map<u64, PendingTimer<P>>,
    id: u64,
)
    ensures
        timers.remove(id).remove(id) == timers.remove(id),
        !timers.remove(id).contains_key(id),
        forall|now: u64| !#[trigger] due_set_contains(timers.remove(id), id, now),
{
    assert(timers.remove(id).remove(id) =~= timers.remove(id));
}

/// Whether the scheduler's tick would fire the timer `id` at instant `now`.
pub open spec fn due_set_contains<P: Platform>(
    timers: Map<u64, PendingTimer<P>>,
    id: u64,
    now: u64,
) -> bool {
    timers.contains_key(id) && timer_due(timers[id], now)
}

/// Interval rebasing: an interval scheduled or rebased at `last_fired` is due
/// no earlier than a full period later. Scheduling sets `last_fired` to the
/// scheduling instant and each firing rebases it to the tick instant, so the
/// first firing waits at least one period and consecutive firings are
/// separated by at least one period, under any tick cadence.
pub proof fn lemma_interval_separation<P: Platform>(interval: PendingInterval<P>, now: u64)
    requires
        interval_due(interval, now),
    ensures
        now >= interval.last_fired + interval.period,
{
}

/// Termination: the close sequence applied to the last remaining window
/// leaves the registry empty and raises the exit flag. Once the flag is up,
/// `run_iteration` dispatches nothing further (its contract).
pub proof fn lemma_close_last_window_exits<P: Platform>(
    windows: Map<u64, Window<P>>,
    exit: bool,
    id: WindowId,
)
    requires
        windows.dom() == set![id.0],
    ensures
        ({
            let (w, e) = apply_request(windows, exit, CustomEvent::CloseWindow(id));
            w.len() == 0 && e
        }),
{
    assert(windows.remove(id.0).dom() =~= Set::<u64>::empty());
    broadcast use vstd::set::axiom_set_empty_len;
}

/// Deferred-close reentrancy: `close_self` from inside the window's own
/// dispatch only enqueues (the contracts of `WindowContext::close_window` and
/// `Context::close_window` leave the registry untouched); the drain then
/// removes the window exactly once, and a duplicate request in the same queue
/// is a no-op.
pub proof fn lemma_deferred_close_once<P: Platform>(
    windows: Map<u64, Window<P>>,
    exit: bool,
    id: WindowId,
)
    ensures
        ({
            let (w, e) = apply_requests(
                windows,
                exit,
                seq![CustomEvent::CloseWindow(id), CustomEvent::CloseWindow(id)],
            );
            w == windows.remove(id.0) && !w.contains_key(id.0)
        }),
        apply_requests(windows, exit, seq![CustomEvent::CloseWindow(id)]).0 == windows.remove(
            id.0,
        ),
{
    let close = CustomEvent::CloseWindow(id);
    let q1 = seq![close];
    let q2 = seq![close, close];
    let (w1, e1) = apply_request(windows, exit, close);
    assert(q1.first() == close);
    assert(q1.drop_first() =~= Seq::<CustomEvent>::empty());
    assert(apply_requests(windows, exit, q1) == apply_requests(w1, e1, q1.drop_first()));
    assert(apply_requests(windows, exit, q1) == (w1, e1));
    assert(q2.first() == close);
    assert(q2.drop_first() =~= q1);
    assert(apply_requests(windows, exit, q2) == apply_requests(w1, e1, q1));
    let (w2, e2) = apply_request(w1, e1, close);
    assert(apply_requests(w1, e1, q1) == apply_requests(w2, e2, q1.drop_first()));
    assert(apply_requests(w1, e1, q1) == (w2, e2));
    assert(windows.remove(id.0).remove(id.0) =~= windows.remove(id.0));
}

} // verus!
