//! Exercises the run-loop core against a deterministic mock platform: a
//! window-system binding whose identifiers count up from one and whose
//! graphics calls only bump shared counters, so every observable effect of
//! the driver can be checked exactly.

use std::cell::{Cell, RefCell};
use std::rc::Rc;

use skia_desktop_rs::application::{
    Application, IntervalHandler, LoopEvent, TimerHandler, TimerId,
};
use skia_desktop_rs::context::context::Context;
use skia_desktop_rs::context::window_context::WindowContext;
use skia_desktop_rs::custom_event::CustomEvent;
use skia_desktop_rs::event::ui_event::{UIEvent, WindowEvent, WindowEventKind};
use skia_desktop_rs::event_handler::{EventHandler, InitHandler};
use skia_desktop_rs::platform::{CreatedWindow, Platform, WindowId};
use skia_desktop_rs::ui::UI;
use skia_desktop_rs::window::Window;

/// Everything the mock platform and UIs record, shared with the test body.
#[derive(Clone, Default)]
struct Log {
    draws: Rc<Cell<u32>>,
    presents: Rc<Cell<u32>>,
    pre_presents: Rc<Cell<u32>>,
    redraw_requests: Rc<Cell<u32>>,
    drags: Rc<Cell<u32>>,
    resizes: Rc<RefCell<Vec<(u32, u32)>>>,
    ui_events: Rc<RefCell<Vec<String>>>,
    timer_fires: Rc<RefCell<Vec<u32>>>,
    interval_fires: Rc<Cell<u32>>,
}

struct TestHandle {
    next_id: Cell<u64>,
    log: Log,
}

impl TestHandle {
    fn new(log: &Log) -> TestHandle {
        TestHandle { next_id: Cell::new(1), log: log.clone() }
    }
}

struct TestNative {
    log: Log,
}

struct TestSurface {
    log: Log,
}

struct TestConfig {
    fail: bool,
}

impl TestConfig {
    fn ok() -> TestConfig {
        TestConfig { fail: false }
    }
}

/// What a scripted UI does when it receives an event.
#[derive(Clone)]
enum UiScript {
    /// Record events and do nothing else.
    Passive,
    /// On the first platform event: ask to close this window, and check that
    /// this window is checked out of the registry while its own dispatch
    /// runs.
    CloseSelfOnOther(u64),
    /// On the first platform event: create a window and check it is
    /// observable at once, and that it received its creation notification.
    SpawnOnOther,
    /// On the creation notification: schedule a window-scoped one-shot timer
    /// with this (instant, delay).
    TimerOnCreate(u64, u64),
    /// On the creation notification: schedule a window-scoped interval with
    /// this (instant, period).
    IntervalOnCreate(u64, u64),
    /// On the first platform event: begin a window drag and request a redraw.
    DragOnOther,
}

struct TestUi {
    log: Log,
    script: UiScript,
}

impl TestUi {
    fn passive(log: &Log) -> TestUi {
        TestUi { log: log.clone(), script: UiScript::Passive }
    }

    fn scripted(log: &Log, script: UiScript) -> TestUi {
        TestUi { log: log.clone(), script }
    }
}

struct TestPlatform;

impl Platform for TestPlatform {
    type Handle = TestHandle;
    type NativeWindow = TestNative;
    type Surface = TestSurface;
    type WindowConfig = TestConfig;
    type RawEvent = u32;
    type Ui = TestUi;
    type TimerCallback = TestTimer;
    type IntervalCallback = TestInterval;
    type InitCallback = TestInit;

    fn create_window(
        handle: &TestHandle,
        config: TestConfig,
    ) -> Option<CreatedWindow<TestPlatform>> {
        if config.fail {
            return None;
        }
        let id: u64 = handle.next_id.get();
        handle.next_id.set(id + 1);
        Some(CreatedWindow {
            id: WindowId(id),
            native: TestNative { log: handle.log.clone() },
            surface: TestSurface { log: handle.log.clone() },
        })
    }

    fn request_redraw(native: &TestNative) {
        native.log.redraw_requests.set(native.log.redraw_requests.get() + 1);
    }

    fn begin_drag(native: &TestNative) {
        native.log.drags.set(native.log.drags.get() + 1);
    }

    fn pre_present_notify(native: &TestNative) {
        native.log.pre_presents.set(native.log.pre_presents.get() + 1);
    }

    fn resize_surface(surface: &mut TestSurface, width: u32, height: u32) {
        surface.log.resizes.borrow_mut().push((width, height));
    }

    fn present_surface(surface: &mut TestSurface) {
        surface.log.presents.set(surface.log.presents.get() + 1);
    }
}

impl UI<TestPlatform> for TestUi {
    fn draw(&mut self, surface: &mut TestSurface) {
        surface.log.draws.set(surface.log.draws.get() + 1);
    }

    fn handle_event(
        &mut self,
        event: UIEvent<TestPlatform>,
        event_context: &mut WindowContext<TestPlatform>,
    ) {
        match event {
            UIEvent::TimerOut(id) => {
                self.log.ui_events.borrow_mut().push(format!("timeout:{}", id.0));
            }
            UIEvent::Interval(id) => {
                self.log.ui_events.borrow_mut().push(format!("interval:{}", id.0));
            }
            UIEvent::WindowCreate => {
                self.log.ui_events.borrow_mut().push(String::from("create"));
                match self.script {
                    UiScript::TimerOnCreate(now, delay) => {
                        event_context.add_timer(now, delay);
                    }
                    UiScript::IntervalOnCreate(now, period) => {
                        event_context.add_interval(now, period);
                    }
                    _ => {}
                }
            }
            UIEvent::Other(window_event) => {
                self.log
                    .ui_events
                    .borrow_mut()
                    .push(format!("other:{}", window_event.raw));
                match self.script {
                    UiScript::CloseSelfOnOther(own_id) => {
                        event_context.close_window();
                        // This window is checked out for the duration of its
                        // own dispatch, so the registry does not hold it now.
                        let app = event_context.application();
                        assert!(app.get_mut_window(WindowId(own_id)).is_none());
                        self.script = UiScript::Passive;
                    }
                    UiScript::SpawnOnOther => {
                        let app = event_context.application();
                        let ui = TestUi::passive(&self.log);
                        let spawned_id = {
                            let spawned = app.new_window(TestConfig::ok(), ui).unwrap();
                            spawned.id()
                        };
                        // The new window is observable at once.
                        assert!(app.get_mut_window(spawned_id).is_some());
                        self.script = UiScript::Passive;
                    }
                    UiScript::DragOnOther => {
                        event_context.start_drag();
                        event_context.request_redraw();
                        self.script = UiScript::Passive;
                    }
                    _ => {}
                }
            }
        }
    }
}

/// What a scripted application-scope timer callback does when it fires.
enum TimerScript {
    Record,
    /// Cancel this other one-shot timer.
    CancelTimer(TimerId),
    /// Ask the application to exit.
    RequestExit,
}

struct TestTimer {
    log: Log,
    script: TimerScript,
}

impl TimerHandler<TestPlatform> for TestTimer {
    fn invoke(self, id: TimerId, application: &mut Application<TestPlatform>, _: &TestHandle) {
        self.log.timer_fires.borrow_mut().push(id.0);
        self.log.ui_events.borrow_mut().push(format!("timer:{}", id.0));
        match self.script {
            TimerScript::Record => {}
            TimerScript::CancelTimer(other) => application.remove_timer(other),
            TimerScript::RequestExit => application.request_exit(),
        }
    }
}

enum IntervalScript {
    Record,
    /// Cancel the interval's own id from inside its own callback.
    CancelSelf,
}

struct TestInterval {
    log: Log,
    script: IntervalScript,
}

impl IntervalHandler<TestPlatform> for TestInterval {
    fn invoke(&self, id: TimerId, application: &mut Application<TestPlatform>, _: &TestHandle) {
        self.log.interval_fires.set(self.log.interval_fires.get() + 1);
        self.log.ui_events.borrow_mut().push(format!("ival:{}", id.0));
        if matches!(self.script, IntervalScript::CancelSelf) {
            application.remove_interval(id);
        }
    }
}

/// The startup callback: creates one window per script entry, requesting a
/// redraw for each, records whether creation succeeded, and schedules the
/// listed application-scope timers and intervals, cancelling the marked ones
/// again at once.
struct TestInit {
    log: Log,
    windows: Vec<(TestConfig, UiScript)>,
    created: Rc<RefCell<Vec<bool>>>,
    timers: Vec<(u64, u64, bool)>,
    intervals: Vec<(u64, u64, bool)>,
}

impl TestInit {
    fn plain(log: &Log, windows: Vec<(TestConfig, UiScript)>, created: &Rc<RefCell<Vec<bool>>>) -> TestInit {
        TestInit {
            log: log.clone(),
            windows,
            created: created.clone(),
            timers: Vec::new(),
            intervals: Vec::new(),
        }
    }
}

impl InitHandler<TestPlatform> for TestInit {
    fn on_init(&self, context: &mut Context<TestPlatform>) {
        for (config, script) in self.windows.iter() {
            let ui = TestUi::scripted(&self.log, script.clone());
            let created: bool = context
                .new_window(TestConfig { fail: config.fail }, ui)
                .map(|w| w.request_redraw())
                .is_some();
            self.created.borrow_mut().push(created);
        }
        for (now, delay, cancel) in self.timers.iter() {
            let id = context.set_timer(
                *now,
                *delay,
                TestTimer { log: self.log.clone(), script: TimerScript::Record },
            );
            if *cancel {
                context.clear_timer(id);
            }
        }
        for (now, period, cancel) in self.intervals.iter() {
            let id = context.set_interval(
                *now,
                *period,
                TestInterval { log: self.log.clone(), script: IntervalScript::Record },
            );
            if *cancel {
                context.clear_interval(id);
            }
        }
    }
}

fn window_event(kind: WindowEventKind, raw: u32) -> WindowEvent<TestPlatform> {
    WindowEvent { kind, raw }
}

fn passive_window(
    handle: &TestHandle,
    log: &Log,
) -> (WindowId, Window<TestPlatform>) {
    let window =
        Window::<TestPlatform>::new(handle, TestConfig::ok(), TestUi::passive(log)).unwrap();
    (window.id(), window)
}

#[test]
fn timer_id_next_increments() {
    let id = TimerId(0);
    assert_eq!(id.next(), TimerId(1));
    assert_eq!(id.next().next(), TimerId(2));
}

#[test]
fn registry_count_matches_lookups() {
    let log = Log::default();
    let handle = TestHandle::new(&log);
    let mut app: Application<TestPlatform> = Application::new();
    assert_eq!(app.count_window(), 0);

    let (id_a, win_a) = passive_window(&handle, &log);
    let (id_b, win_b) = passive_window(&handle, &log);
    assert_ne!(id_a, id_b);

    app.add_window(id_a, win_a);
    assert_eq!(app.count_window(), 1);
    app.add_window(id_b, win_b);
    assert_eq!(app.count_window(), 2);
    assert!(app.get_mut_window(id_a).is_some());
    assert!(app.get_mut_window(id_b).is_some());
    assert!(app.get_mut_window(WindowId(99)).is_none());

    assert!(app.remove_window(id_a).is_some());
    assert_eq!(app.count_window(), 1);
    assert!(app.get_mut_window(id_a).is_none());
    // Removing an absent window is a no-op.
    assert!(app.remove_window(id_a).is_none());
    assert_eq!(app.count_window(), 1);
}

#[test]
fn registry_insert_same_id_replaces() {
    let log = Log::default();
    let handle = TestHandle::new(&log);
    let mut app: Application<TestPlatform> = Application::new();

    let (id_a, win_a) = passive_window(&handle, &log);
    let (_, win_b) = passive_window(&handle, &log);
    app.add_window(id_a, win_a);
    app.add_window(id_a, win_b);
    // The later insert replaced the earlier one; they never coexist.
    assert_eq!(app.count_window(), 1);
}

#[test]
fn timer_fires_once_at_or_after_due_time() {
    let log = Log::default();
    let handle = TestHandle::new(&log);
    let mut app: Application<TestPlatform> = Application::new();

    app.add_timer(
        0,
        5,
        skia_desktop_rs::application::TimerAction::User(TestTimer {
            log: log.clone(),
            script: TimerScript::Record,
        }),
    );
    app.check_and_run_timer(&handle, 4);
    assert_eq!(log.timer_fires.borrow().len(), 0);
    // Due exactly at the boundary instant.
    app.check_and_run_timer(&handle, 5);
    assert_eq!(*log.timer_fires.borrow(), vec![1]);
    // A fired timer is gone: it never fires again.
    app.check_and_run_timer(&handle, 100);
    assert_eq!(log.timer_fires.borrow().len(), 1);
}

#[test]
fn cancel_timer_twice_is_noop() {
    let log = Log::default();
    let handle = TestHandle::new(&log);
    let mut app: Application<TestPlatform> = Application::new();

    let id = app.add_timer(
        0,
        5,
        skia_desktop_rs::application::TimerAction::User(TestTimer {
            log: log.clone(),
            script: TimerScript::Record,
        }),
    );
    app.remove_timer(id);
    app.remove_timer(id);
    app.check_and_run_timer(&handle, 50);
    assert_eq!(log.timer_fires.borrow().len(), 0);
    // Cancelling an id that never existed is also a no-op.
    app.remove_timer(TimerId(7));
}

#[test]
fn timer_ids_are_fresh_and_monotonic() {
    let log = Log::default();
    let mut app: Application<TestPlatform> = Application::new();
    let action = || {
        skia_desktop_rs::application::TimerAction::<TestPlatform>::User(TestTimer {
            log: log.clone(),
            script: TimerScript::Record,
        })
    };
    assert_eq!(app.add_timer(0, 1, action()), TimerId(1));
    assert_eq!(app.add_timer(0, 1, action()), TimerId(2));
    assert_eq!(app.add_timer(0, 1, action()), TimerId(3));
}

#[test]
fn due_timer_cancelled_within_tick_does_not_fire() {
    let log = Log::default();
    let handle = TestHandle::new(&log);
    let mut app: Application<TestPlatform> = Application::new();

    let second = TimerId(2);
    app.add_timer(
        0,
        1,
        skia_desktop_rs::application::TimerAction::User(TestTimer {
            log: log.clone(),
            script: TimerScript::CancelTimer(second),
        }),
    );
    app.add_timer(
        0,
        1,
        skia_desktop_rs::application::TimerAction::User(TestTimer {
            log: log.clone(),
            script: TimerScript::Record,
        }),
    );
    // Both are due; the first callback cancels the second before it runs.
    app.check_and_run_timer(&handle, 10);
    assert_eq!(*log.timer_fires.borrow(), vec![1]);
}

#[test]
fn interval_first_fires_one_full_period_after_scheduling() {
    let log = Log::default();
    let handle = TestHandle::new(&log);
    let mut app: Application<TestPlatform> = Application::new();

    app.add_interval(
        0,
        10,
        skia_desktop_rs::application::IntervalAction::User(TestInterval {
            log: log.clone(),
            script: IntervalScript::Record,
        }),
    );
    for now in 0u64..10 {
        app.check_and_run_interval(&handle, now);
    }
    assert_eq!(log.interval_fires.get(), 0);
    app.check_and_run_interval(&handle, 10);
    assert_eq!(log.interval_fires.get(), 1);
}

#[test]
fn interval_firings_are_separated_by_at_least_the_period() {
    let log = Log::default();
    let handle = TestHandle::new(&log);
    let mut app: Application<TestPlatform> = Application::new();

    app.add_interval(
        0,
        10,
        skia_desktop_rs::application::IntervalAction::User(TestInterval {
            log: log.clone(),
            script: IntervalScript::Record,
        }),
    );
    let mut fire_instants: Vec<u64> = Vec::new();
    for now in 0u64..=45 {
        let before: u32 = log.interval_fires.get();
        app.check_and_run_interval(&handle, now);
        if log.interval_fires.get() > before {
            fire_instants.push(now);
        }
    }
    assert_eq!(fire_instants, vec![10, 20, 30, 40]);
}

#[test]
fn interval_rebases_to_the_tick_instant_not_the_deadline() {
    let log = Log::default();
    let handle = TestHandle::new(&log);
    let mut app: Application<TestPlatform> = Application::new();

    app.add_interval(
        0,
        10,
        skia_desktop_rs::application::IntervalAction::User(TestInterval {
            log: log.clone(),
            script: IntervalScript::Record,
        }),
    );
    // The first tick arrives late, at 25; the interval fires and is rebased
    // to 25, so the next firing waits until 35, not 30: no catching up.
    app.check_and_run_interval(&handle, 25);
    assert_eq!(log.interval_fires.get(), 1);
    app.check_and_run_interval(&handle, 30);
    app.check_and_run_interval(&handle, 34);
    assert_eq!(log.interval_fires.get(), 1);
    app.check_and_run_interval(&handle, 35);
    assert_eq!(log.interval_fires.get(), 2);
}

#[test]
fn interval_cancelling_itself_mid_callback_is_reinserted() {
    let log = Log::default();
    let handle = TestHandle::new(&log);
    let mut app: Application<TestPlatform> = Application::new();

    // The entry is absent from the table while its own callback runs, so the
    // callback's cancel finds nothing and the scheduler reinserts the entry:
    // the interval keeps firing.
    app.add_interval(
        0,
        10,
        skia_desktop_rs::application::IntervalAction::User(TestInterval {
            log: log.clone(),
            script: IntervalScript::CancelSelf,
        }),
    );
    app.check_and_run_interval(&handle, 10);
    app.check_and_run_interval(&handle, 20);
    assert_eq!(log.interval_fires.get(), 2);
}

#[test]
fn cancel_interval_outside_callback_stops_it() {
    let log = Log::default();
    let handle = TestHandle::new(&log);
    let mut app: Application<TestPlatform> = Application::new();

    let id = app.add_interval(
        0,
        10,
        skia_desktop_rs::application::IntervalAction::User(TestInterval {
            log: log.clone(),
            script: IntervalScript::Record,
        }),
    );
    app.check_and_run_interval(&handle, 10);
    assert_eq!(log.interval_fires.get(), 1);
    app.remove_interval(id);
    app.remove_interval(id);
    app.check_and_run_interval(&handle, 50);
    assert_eq!(log.interval_fires.get(), 1);
}

#[test]
fn init_creates_window_and_redraw_draws_then_presents() {
    let log = Log::default();
    let handle = TestHandle::new(&log);
    let created = Rc::new(RefCell::new(Vec::new()));
    let mut event_handler: EventHandler<TestPlatform> = EventHandler::new();
    event_handler.add_init_handler(TestInit::plain(
        &log,
        vec![(TestConfig::ok(), UiScript::Passive)],
        &created,
    ));
    let mut app: Application<TestPlatform> = Application::new();

    // Initialization creates window A, which requests a redraw.
    app.run_iteration(&handle, &event_handler, 0, LoopEvent::Init);
    assert_eq!(*created.borrow(), vec![true]);
    assert_eq!(app.count_window(), 1);
    assert_eq!(log.redraw_requests.get(), 1);
    assert_eq!(*log.ui_events.borrow(), vec![String::from("create")]);
    assert_eq!(log.draws.get(), 0);

    // The platform answers with a redraw event: draw once, then present.
    app.run_iteration(
        &handle,
        &event_handler,
        1,
        LoopEvent::Window {
            window_id: WindowId(1),
            event: window_event(WindowEventKind::RedrawRequested, 0),
        },
    );
    assert_eq!(log.draws.get(), 1);
    assert_eq!(log.pre_presents.get(), 1);
    assert_eq!(log.presents.get(), 1);

    // A deferred close request for A is drained: shutdown, empty registry,
    // and the loop is told to exit.
    app.run_iteration(
        &handle,
        &event_handler,
        2,
        LoopEvent::User(CustomEvent::CloseWindow(WindowId(1))),
    );
    assert_eq!(app.count_window(), 0);
    assert!(app.should_exit());
}

#[test]
fn window_creation_failure_is_an_absent_result() {
    let log = Log::default();
    let handle = TestHandle::new(&log);
    let created = Rc::new(RefCell::new(Vec::new()));
    let mut event_handler: EventHandler<TestPlatform> = EventHandler::new();
    event_handler.add_init_handler(TestInit::plain(
        &log,
        vec![
            (TestConfig { fail: true }, UiScript::Passive),
            (TestConfig::ok(), UiScript::Passive),
        ],
        &created,
    ));
    let mut app: Application<TestPlatform> = Application::new();
    app.run_iteration(&handle, &event_handler, 0, LoopEvent::Init);
    assert_eq!(*created.borrow(), vec![false, true]);
    assert_eq!(app.count_window(), 1);
}

#[test]
fn close_requested_event_removes_before_dispatch() {
    let log = Log::default();
    let handle = TestHandle::new(&log);
    let event_handler: EventHandler<TestPlatform> = EventHandler::new();
    let mut app: Application<TestPlatform> = Application::new();
    let (id, win) = passive_window(&handle, &log);
    app.add_window(id, win);

    app.run_iteration(
        &handle,
        &event_handler,
        0,
        LoopEvent::Window { window_id: id, event: window_event(WindowEventKind::CloseRequested, 0) },
    );
    // The close sequence ran first, so the just-closed window received no
    // dispatch for the same event.
    assert_eq!(app.count_window(), 0);
    assert_eq!(log.ui_events.borrow().len(), 0);
    assert!(app.should_exit());
}

#[test]
fn closing_the_last_window_terminates_and_nothing_more_is_dispatched() {
    let log = Log::default();
    let handle = TestHandle::new(&log);
    let event_handler: EventHandler<TestPlatform> = EventHandler::new();
    let mut app: Application<TestPlatform> = Application::new();
    let (id, win) = passive_window(&handle, &log);
    app.add_window(id, win);

    app.run_iteration(&handle, &event_handler, 0, LoopEvent::User(CustomEvent::CloseWindow(id)));
    assert!(app.should_exit());

    // Terminal state: a further event reaches nothing.
    let (id2, win2) = passive_window(&handle, &log);
    app.add_window(id2, win2);
    app.run_iteration(
        &handle,
        &event_handler,
        1,
        LoopEvent::Window { window_id: id2, event: window_event(WindowEventKind::Other, 7) },
    );
    assert_eq!(log.ui_events.borrow().len(), 0);
}

#[test]
fn close_self_is_deferred_to_the_drain() {
    let log = Log::default();
    let handle = TestHandle::new(&log);
    let mut app: Application<TestPlatform> = Application::new();

    let window = Window::<TestPlatform>::new(
        &handle,
        TestConfig::ok(),
        TestUi::scripted(&log, UiScript::CloseSelfOnOther(1)),
    )
    .unwrap();
    let id = window.id();
    assert_eq!(id, WindowId(1));
    app.add_window(id, window);

    // The UI asks to close itself mid-dispatch. Dispatch checks the window
    // back in: it is not removed synchronously, and survives until the
    // deferred queue is drained.
    app.dispatch_to_window(&handle, id, UIEvent::Other(window_event(WindowEventKind::Other, 1)));
    assert_eq!(app.count_window(), 1);
    assert!(!app.should_exit());
    assert_eq!(*log.ui_events.borrow(), vec![String::from("other:1")]);

    // The drain then removes it exactly once; nothing remains, so the loop
    // is told to exit.
    app.drain_deferred();
    assert_eq!(app.count_window(), 0);
    assert!(app.should_exit());
}

#[test]
fn window_created_during_dispatch_is_observable_at_once() {
    let log = Log::default();
    let handle = TestHandle::new(&log);
    let event_handler: EventHandler<TestPlatform> = EventHandler::new();
    let mut app: Application<TestPlatform> = Application::new();

    let window = Window::<TestPlatform>::new(
        &handle,
        TestConfig::ok(),
        TestUi::scripted(&log, UiScript::SpawnOnOther),
    )
    .unwrap();
    let id = window.id();
    app.add_window(id, window);

    app.run_iteration(
        &handle,
        &event_handler,
        0,
        LoopEvent::Window { window_id: id, event: window_event(WindowEventKind::Other, 2) },
    );
    // Both the dispatched window and the spawned one are registered: the
    // dispatched window was not lost by its own dispatch.
    assert_eq!(app.count_window(), 2);
    assert!(app.get_mut_window(id).is_some());
    assert!(app.get_mut_window(WindowId(2)).is_some());
    // The spawned window got its creation notification during dispatch.
    assert_eq!(
        *log.ui_events.borrow(),
        vec![String::from("other:2"), String::from("create")]
    );
}

#[test]
fn resize_event_resizes_surface_then_reaches_the_ui() {
    let log = Log::default();
    let handle = TestHandle::new(&log);
    let event_handler: EventHandler<TestPlatform> = EventHandler::new();
    let mut app: Application<TestPlatform> = Application::new();
    let (id, win) = passive_window(&handle, &log);
    app.add_window(id, win);

    app.run_iteration(
        &handle,
        &event_handler,
        0,
        LoopEvent::Window { window_id: id, event: window_event(WindowEventKind::Resized(640, 480), 3) },
    );
    assert_eq!(*log.resizes.borrow(), vec![(640, 480)]);
    assert_eq!(*log.ui_events.borrow(), vec![String::from("other:3")]);
}

#[test]
fn event_for_unknown_window_is_ignored() {
    let log = Log::default();
    let handle = TestHandle::new(&log);
    let event_handler: EventHandler<TestPlatform> = EventHandler::new();
    let mut app: Application<TestPlatform> = Application::new();

    app.run_iteration(
        &handle,
        &event_handler,
        0,
        LoopEvent::Window {
            window_id: WindowId(5),
            event: window_event(WindowEventKind::RedrawRequested, 0),
        },
    );
    assert_eq!(log.draws.get(), 0);
    assert_eq!(log.ui_events.borrow().len(), 0);
    // An empty registry was not a close: the loop keeps running.
    assert!(!app.should_exit());
}

#[test]
fn window_scoped_timer_dispatches_timeout_to_its_window() {
    let log = Log::default();
    let handle = TestHandle::new(&log);
    let created = Rc::new(RefCell::new(Vec::new()));
    let mut event_handler: EventHandler<TestPlatform> = EventHandler::new();
    event_handler.add_init_handler(TestInit::plain(
        &log,
        vec![(TestConfig::ok(), UiScript::TimerOnCreate(0, 5))],
        &created,
    ));
    let mut app: Application<TestPlatform> = Application::new();
    app.run_iteration(&handle, &event_handler, 0, LoopEvent::Init);

    app.run_iteration(&handle, &event_handler, 5, LoopEvent::Other);
    assert_eq!(
        *log.ui_events.borrow(),
        vec![String::from("create"), String::from("timeout:1")]
    );
    assert_eq!(app.count_window(), 1);
    // One-shot: it does not fire again.
    app.run_iteration(&handle, &event_handler, 50, LoopEvent::Other);
    assert_eq!(log.ui_events.borrow().len(), 2);
}

#[test]
fn window_scoped_interval_dispatches_and_cancel_stops_it() {
    let log = Log::default();
    let handle = TestHandle::new(&log);
    let created = Rc::new(RefCell::new(Vec::new()));
    let mut event_handler: EventHandler<TestPlatform> = EventHandler::new();
    event_handler.add_init_handler(TestInit::plain(
        &log,
        vec![(TestConfig::ok(), UiScript::IntervalOnCreate(0, 5))],
        &created,
    ));
    let mut app: Application<TestPlatform> = Application::new();
    app.run_iteration(&handle, &event_handler, 0, LoopEvent::Init);

    app.run_iteration(&handle, &event_handler, 5, LoopEvent::Other);
    assert_eq!(
        *log.ui_events.borrow(),
        vec![String::from("create"), String::from("interval:1")]
    );
    app.run_iteration(&handle, &event_handler, 10, LoopEvent::Other);
    assert_eq!(log.ui_events.borrow().len(), 3);

    // Cancelled between ticks, it never fires again.
    app.remove_interval(TimerId(1));
    app.run_iteration(&handle, &event_handler, 50, LoopEvent::Other);
    assert_eq!(log.ui_events.borrow().len(), 3);
}

#[test]
fn iteration_runs_timers_then_intervals_then_the_event() {
    let log = Log::default();
    let handle = TestHandle::new(&log);
    let event_handler: EventHandler<TestPlatform> = EventHandler::new();
    let mut app: Application<TestPlatform> = Application::new();
    let (id, win) = passive_window(&handle, &log);
    app.add_window(id, win);
    app.add_timer(
        0,
        5,
        skia_desktop_rs::application::TimerAction::User(TestTimer {
            log: log.clone(),
            script: TimerScript::Record,
        }),
    );
    app.add_interval(
        0,
        5,
        skia_desktop_rs::application::IntervalAction::User(TestInterval {
            log: log.clone(),
            script: IntervalScript::Record,
        }),
    );

    // One iteration at the instant both are due, carrying a window event:
    // the one-shot tick runs first, the interval tick second, the event last.
    app.run_iteration(
        &handle,
        &event_handler,
        5,
        LoopEvent::Window { window_id: id, event: window_event(WindowEventKind::Other, 9) },
    );
    assert_eq!(
        *log.ui_events.borrow(),
        vec![String::from("timer:1"), String::from("ival:1"), String::from("other:9")]
    );
}

#[test]
fn deferred_requests_drain_in_enqueue_order() {
    let log = Log::default();
    let handle = TestHandle::new(&log);
    let mut app: Application<TestPlatform> = Application::new();
    let (id_a, win_a) = passive_window(&handle, &log);
    let (id_b, win_b) = passive_window(&handle, &log);
    app.add_window(id_a, win_a);
    app.add_window(id_b, win_b);

    app.request_close_window(id_a);
    app.request_close_window(WindowId(77));
    app.request_close_window(id_b);
    // Nothing is applied while enqueued.
    assert_eq!(app.count_window(), 2);
    assert!(!app.should_exit());

    app.drain_deferred();
    assert_eq!(app.count_window(), 0);
    assert!(app.should_exit());
}

#[test]
fn request_exit_terminates_without_touching_windows() {
    let log = Log::default();
    let handle = TestHandle::new(&log);
    let mut app: Application<TestPlatform> = Application::new();
    let (id, win) = passive_window(&handle, &log);
    app.add_window(id, win);

    app.request_exit();
    assert!(!app.should_exit());
    app.drain_deferred();
    assert!(app.should_exit());
    assert_eq!(app.count_window(), 1);
}

#[test]
fn timer_callback_can_request_exit() {
    let log = Log::default();
    let handle = TestHandle::new(&log);
    let event_handler: EventHandler<TestPlatform> = EventHandler::new();
    let mut app: Application<TestPlatform> = Application::new();

    app.add_timer(
        0,
        1,
        skia_desktop_rs::application::TimerAction::User(TestTimer {
            log: log.clone(),
            script: TimerScript::RequestExit,
        }),
    );
    app.run_iteration(&handle, &event_handler, 1, LoopEvent::Other);
    assert!(app.should_exit());
}

#[test]
fn event_handler_default_has_no_init_handler() {
    let log = Log::default();
    let handle = TestHandle::new(&log);
    let event_handler: EventHandler<TestPlatform> = EventHandler::default();
    let mut app: Application<TestPlatform> = Application::new();
    app.run_iteration(&handle, &event_handler, 0, LoopEvent::Init);
    assert_eq!(app.count_window(), 0);
    assert_eq!(log.ui_events.borrow().len(), 0);
}

#[test]
fn context_schedules_and_cancels_timers_and_intervals() {
    let log = Log::default();
    let handle = TestHandle::new(&log);
    let created = Rc::new(RefCell::new(Vec::new()));
    let mut event_handler: EventHandler<TestPlatform> = EventHandler::new();
    let mut init = TestInit::plain(&log, Vec::new(), &created);
    // Two timers, the first cancelled at once; two intervals, the second
    // cancelled at once.
    init.timers = vec![(0, 3, true), (0, 3, false)];
    init.intervals = vec![(0, 4, false), (0, 4, true)];
    event_handler.add_init_handler(init);
    let mut app: Application<TestPlatform> = Application::new();
    app.run_iteration(&handle, &event_handler, 0, LoopEvent::Init);

    app.run_iteration(&handle, &event_handler, 10, LoopEvent::Other);
    // Only the surviving timer fired, under the second fresh id.
    assert_eq!(*log.timer_fires.borrow(), vec![2]);
    // Only the surviving interval fired.
    assert_eq!(log.interval_fires.get(), 1);
}

#[test]
fn drag_and_redraw_requests_reach_the_platform() {
    let log = Log::default();
    let handle = TestHandle::new(&log);
    let event_handler: EventHandler<TestPlatform> = EventHandler::new();
    let mut app: Application<TestPlatform> = Application::new();
    let window = Window::<TestPlatform>::new(
        &handle,
        TestConfig::ok(),
        TestUi::scripted(&log, UiScript::DragOnOther),
    )
    .unwrap();
    let id = window.id();
    app.add_window(id, window);

    app.run_iteration(
        &handle,
        &event_handler,
        0,
        LoopEvent::Window { window_id: id, event: window_event(WindowEventKind::Other, 4) },
    );
    assert_eq!(log.drags.get(), 1);
    assert_eq!(log.redraw_requests.get(), 1);
}
