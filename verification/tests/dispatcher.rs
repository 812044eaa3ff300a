use perceptia::dispatcher::{
    begin_run, do_run, do_wait_and_process, timeout_for, Dispatcher, EventHandler, InnerState,
    LocalDispatcher, LoopStep, State, WaitOutcome, Waited, EINTR, WAIT_INFINITELY,
};
use perceptia::event_kind::EventKind;
use std::sync::{Arc, Mutex};

struct Recorder {
    fd: i32,
    id: Arc<Mutex<u64>>,
    seen: Arc<Mutex<Vec<EventKind>>>,
}

impl Recorder {
    fn new(fd: i32) -> Recorder {
        Recorder { fd, id: Arc::new(Mutex::new(0)), seen: Arc::new(Mutex::new(Vec::new())) }
    }
}

impl EventHandler for Recorder {
    fn get_fd(&self) -> i32 {
        self.fd
    }

    fn process_event(&mut self, event_kind: EventKind) {
        self.seen.lock().unwrap().push(event_kind);
    }

    fn set_id(&mut self, id: u64) {
        *self.id.lock().unwrap() = id;
    }
}

#[test]
fn handler_ids_count_from_one_and_are_told_to_the_handler() {
    let mut state: InnerState<dyn EventHandler> = InnerState::new();
    let first = Recorder::new(10);
    let second = Recorder::new(11);
    let second_id = second.id.clone();
    let a = state.add_source(Box::new(first), EventKind::read());
    let b = state.add_source(
        Box::new(second),
        EventKind { read: true, write: true, hangup: false },
    );
    assert_eq!((a.id, a.fd, a.events), (1, 10, 0x1));
    assert_eq!((b.id, b.fd, b.events), (2, 11, 0x5));
    assert_eq!(*second_id.lock().unwrap(), 2);
    assert_eq!(state.count(), 2);
    assert!(state.has_source(1));
    assert!(state.has_source(2));
    assert!(!state.has_source(3));
}

#[test]
fn deleted_handler_is_handed_back_and_its_id_is_not_used_again() {
    let mut state: InnerState<dyn EventHandler> = InnerState::new();
    state.add_source(Box::new(Recorder::new(10)), EventKind::read());
    let deleted = state.delete_source(1);
    assert_eq!(deleted.map(|handler| handler.get_fd()), Some(10));
    assert!(state.delete_source(1).is_none());
    assert!(!state.has_source(1));
    let next = state.add_source(Box::new(Recorder::new(12)), EventKind::read());
    assert_eq!(next.id, 2);
}

#[test]
fn handler_is_removed_after_hang_up_alone() {
    let mut state: InnerState<dyn EventHandler> = InnerState::new();
    let recorder = Recorder::new(10);
    let seen = recorder.seen.clone();
    state.add_source(Box::new(recorder), EventKind::read());
    let removed = state.process(1, EventKind::hangup());
    assert_eq!(removed.map(|handler| handler.get_fd()), Some(10));
    assert!(!state.has_source(1));
    assert_eq!(*seen.lock().unwrap(), vec![EventKind::hangup()]);
}

#[test]
fn handler_stays_after_hang_up_with_read() {
    let mut state: InnerState<dyn EventHandler> = InnerState::new();
    let recorder = Recorder::new(10);
    let seen = recorder.seen.clone();
    state.add_source(Box::new(recorder), EventKind::read());
    let kind = EventKind { read: true, write: false, hangup: true };
    assert!(state.process(1, kind).is_none());
    assert!(state.process(1, EventKind::read()).is_none());
    assert!(state.has_source(1));
    assert_eq!(*seen.lock().unwrap(), vec![kind, EventKind::read()]);
}

#[test]
fn event_for_unknown_handler_is_passed_over() {
    let mut state: InnerState<dyn EventHandler> = InnerState::new();
    state.add_source(Box::new(Recorder::new(10)), EventKind::read());
    assert!(state.process(5, EventKind::read()).is_none());
    assert!(state.process(5, EventKind::hangup()).is_none());
    assert!(state.has_source(1));
    assert_eq!(state.count(), 1);
}

#[test]
fn wait_outcomes_follow_what_the_wait_gave() {
    let mut state: State<dyn EventHandler> = State::new();
    let (outcome, removed) =
        do_wait_and_process(&mut state, Waited::Events { ready: 0, id: 1, events: 0x1 });
    assert_eq!(outcome, WaitOutcome::Nothing);
    assert!(removed.is_none());
    let (outcome, _) = do_wait_and_process(&mut state, Waited::Error { errno: 4 });
    assert_eq!(outcome, WaitOutcome::Interrupted);
    assert_eq!(EINTR, 4);
    let (outcome, _) = do_wait_and_process(&mut state, Waited::Error { errno: 9 });
    assert_eq!(outcome, WaitOutcome::Fatal(9));
    let (outcome, _) =
        do_wait_and_process(&mut state, Waited::Events { ready: 1, id: 1, events: 0x1 });
    assert_eq!(outcome, WaitOutcome::Processed);
}

#[test]
fn loop_goes_on_until_it_is_stopped() {
    let mut dispatcher: LocalDispatcher<dyn EventHandler> = LocalDispatcher::new();
    let recorder = Recorder::new(10);
    let seen = recorder.seen.clone();
    assert!(dispatcher.can_add_source());
    let registration = dispatcher.add_source(Box::new(recorder), EventKind::read());
    dispatcher.begin_run();
    let ready = Waited::Events { ready: 1, id: registration.id, events: 0x1 };
    assert_eq!(dispatcher.run(ready).0, LoopStep::Continue);
    assert_eq!(dispatcher.run(Waited::Error { errno: 4 }).0, LoopStep::Continue);
    dispatcher.stop();
    assert_eq!(dispatcher.run(ready).0, LoopStep::Stop);
    assert_eq!(seen.lock().unwrap().len(), 2);
    assert_eq!(dispatcher.run(Waited::Error { errno: 5 }).0, LoopStep::Fatal(5));
}

#[test]
fn loop_that_was_not_begun_stops_at_once() {
    let mut state: State<dyn EventHandler> = State::new();
    assert_eq!(do_run(&mut state, Waited::Events { ready: 0, id: 0, events: 0 }).0, LoopStep::Stop);
    begin_run(&mut state);
    assert_eq!(
        do_run(&mut state, Waited::Events { ready: 0, id: 0, events: 0 }).0,
        LoopStep::Continue
    );
}

#[test]
fn pump_mode_processes_one_event() {
    let mut dispatcher: LocalDispatcher<dyn EventHandler> = LocalDispatcher::new();
    let recorder = Recorder::new(10);
    let seen = recorder.seen.clone();
    let registration = dispatcher.add_source(Box::new(recorder), EventKind::read());
    let (outcome, removed) =
        dispatcher.wait_and_process(Waited::Events { ready: 1, id: registration.id, events: 0x4 });
    assert_eq!(outcome, WaitOutcome::Processed);
    assert!(removed.is_none());
    assert_eq!(*seen.lock().unwrap(), vec![EventKind::write()]);
    assert!(dispatcher.has_source(registration.id));
    let (_, removed) =
        dispatcher.wait_and_process(Waited::Events { ready: 1, id: registration.id, events: 0x8 });
    assert!(removed.is_some());
    assert!(!dispatcher.has_source(registration.id));
    assert!(dispatcher.delete_source(registration.id).is_none());
}

#[test]
fn timeouts_become_what_the_kernel_takes() {
    assert_eq!(timeout_for(None), -1);
    assert_eq!(WAIT_INFINITELY, -1);
    assert_eq!(timeout_for(Some(0)), 0);
    assert_eq!(timeout_for(Some(250)), 250);
}

#[test]
fn threaded_dispatcher_takes_handlers_that_can_cross_threads() {
    let mut dispatcher: Dispatcher<dyn EventHandler + Send> = Dispatcher::new();
    let recorder = Recorder::new(10);
    let seen = recorder.seen.clone();
    assert!(dispatcher.can_add_source());
    let registration = dispatcher.add_source(Box::new(recorder), EventKind::read());
    assert_eq!(registration.id, 1);
    dispatcher.begin_run();
    let (step, removed) =
        dispatcher.run(Waited::Events { ready: 1, id: 1, events: 0x10 });
    assert_eq!(step, LoopStep::Continue);
    assert_eq!(removed.map(|handler| handler.get_fd()), Some(10));
    assert_eq!(*seen.lock().unwrap(), vec![EventKind::hangup()]);
    assert!(dispatcher.delete_source(1).is_none());
    dispatcher.stop();
    assert_eq!(dispatcher.run(Waited::Events { ready: 0, id: 0, events: 0 }).0, LoopStep::Stop);
}
