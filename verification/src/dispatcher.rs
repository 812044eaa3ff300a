//! Handlers of file-descriptor events and the table that a dispatcher keeps of
//! them.
//!
//! Waiting on the kernel is left to the caller: it hands in what the wait gave,
//! and is told what to register with the kernel and when to stop.

use crate::defs::EventHandlerId;
use crate::event_kind::EventKind;
use std::collections::HashMap;
use vstd::prelude::*;

verus! {

broadcast use vstd::std_specs::hash::group_hash_axioms;

/// The timeout that makes the kernel wait without end.
pub const WAIT_INFINITELY: isize = -1;

/// The error code of a wait that a signal interrupted.
pub const EINTR: i32 = 4;

/// What handles the events of one file descriptor.
///
/// A handler says what it is by defining the three functions that describe it;
/// one that does not is taken at its word.
pub trait EventHandler {
    /// The file descriptor.
    open spec fn fd(&self) -> i32 {
        0
    }

    /// The kinds of readiness that the handler was told of, in order.
    open spec fn seen(&self) -> Seq<EventKind> {
        Seq::empty()
    }

    /// The identifiers that the handler was told of, in order.
    open spec fn ids(&self) -> Seq<EventHandlerId> {
        Seq::empty()
    }

    /// The file descriptor.
    fn get_fd(&self) -> (fd: i32)
        ensures
            fd == self.fd(),
    ;

    /// Called when the file descriptor is ready, with the kinds of readiness.
    fn process_event(&mut self, event_kind: EventKind)
        ensures
            final(self).fd() == old(self).fd(),
            final(self).ids() == old(self).ids(),
            final(self).seen() == old(self).seen().push(event_kind),
    ;

    /// Called once when the handler is added to a dispatcher, with the
    /// identifier by which it can be deleted.
    fn set_id(&mut self, id: EventHandlerId)
        ensures
            final(self).fd() == old(self).fd(),
            final(self).seen() == old(self).seen(),
            final(self).ids() == old(self).ids().push(id),
    ;
}

/// A handler as it is after it was told of a kind of readiness.
pub open spec fn told<E: EventHandler + ?Sized>(
    before: Box<E>,
    after: Box<E>,
    event_kind: EventKind,
) -> bool {
    &&& after.fd() == before.fd()
    &&& after.ids() == before.ids()
    &&& after.seen() == before.seen().push(event_kind)
}

/// The table of handlers `after`, as it is once the handler `source` was added to
/// the table `before` under the identifier `id`: the handler is in the table, was
/// told its identifier, and nothing else of it changed; the other handlers are as
/// they were.
pub open spec fn added<E: EventHandler + ?Sized>(
    before: InnerState<E>,
    after: InnerState<E>,
    source: Box<E>,
    id: EventHandlerId,
) -> bool {
    &&& !before.handlers().contains_key(id)
    &&& after.handlers().dom() == before.handlers().dom().insert(id)
    &&& after.handlers()[id].fd() == source.fd()
    &&& after.handlers()[id].seen() == source.seen()
    &&& after.handlers()[id].ids() == source.ids().push(id)
    &&& forall|other: EventHandlerId| #[trigger]
        before.handlers().contains_key(other) ==> after.handlers()[other]
            == before.handlers()[other]
}

/// The table of handlers `after`, as it is once what a wait gave was dealt with
/// in the table `before`, and the handler `deleted` that is handed back. Of a wait
/// that gave an event, the handler of the event was told; after a hang-up and
/// nothing else it is out of the table and handed back, and else it stays; all
/// other handlers are as they were. Any other wait changes nothing.
pub open spec fn processed<E: EventHandler + ?Sized>(
    before: InnerState<E>,
    after: InnerState<E>,
    waited: Waited,
    deleted: Option<Box<E>>,
) -> bool {
    match waited {
        Waited::Events { ready, id, events } if ready > 0 => {
            let kind = EventKind::of_epoll(events);
            &&& deleted is Some <==> kind.is_hangup_alone() && before.handlers().contains_key(id)
            &&& deleted is Some ==> told(before.handlers()[id], deleted->0, kind)
            &&& after.handlers().dom() == (if kind.is_hangup_alone() {
                before.handlers().dom().remove(id)
            } else {
                before.handlers().dom()
            })
            &&& before.handlers().contains_key(id) && !kind.is_hangup_alone() ==> told(
                before.handlers()[id],
                after.handlers()[id],
                kind,
            )
            &&& forall|other: EventHandlerId| #[trigger]
                before.handlers().contains_key(other) && other != id ==> after.handlers()[other]
                    == before.handlers()[other]
        },
        _ => deleted is None && after.handlers() == before.handlers(),
    }
}

/// What to register with the kernel for a handler that was added.
#[derive(Clone, Copy, PartialEq, Eq, Debug, Structural)]
pub struct Registration {
    /// The identifier of the handler, which the kernel hands back with each event.
    pub id: EventHandlerId,
    /// The file descriptor of the handler.
    pub fd: i32,
    /// The epoll mask of the kinds that were asked for.
    pub events: u32,
}

/// `Errno::EINTR` of nix: the error code 4.
#[verifier::external_body]
fn errno_eintr() -> (code: i32)
    ensures
        code == EINTR,
{
    nix::errno::Errno::EINTR as i32
}

/// The table of handlers of a dispatcher.
pub struct InnerState<E: EventHandler + ?Sized> {
    last_id: EventHandlerId,
    handlers: HashMap<EventHandlerId, Box<E>>,
}

impl<E: EventHandler + ?Sized> InnerState<E> {
    /// The handlers, by identifier.
    pub closed spec fn handlers(&self) -> Map<EventHandlerId, Box<E>> {
        self.handlers@
    }

    /// The identifier that was given out last.
    pub closed spec fn last_id(&self) -> EventHandlerId {
        self.last_id
    }

    /// The invariant: no handler has an identifier that is yet to be given out.
    pub open spec fn wf(&self) -> bool {
        forall|id: EventHandlerId| #[trigger] self.handlers().contains_key(id) ==> id <= self.last_id()
    }

    pub fn new() -> (state: Self)
        ensures
            state.wf(),
            state.last_id() == 0,
            state.handlers() == Map::<EventHandlerId, Box<E>>::empty(),
    {
        InnerState { last_id: 0, handlers: HashMap::new() }
    }

    /// Whether a handler has the identifier `id`.
    pub fn has_source(&self, id: EventHandlerId) -> (present: bool)
        ensures
            present == self.handlers().contains_key(id),
    {
        self.handlers.contains_key(&id)
    }

    /// How many handlers there are.
    pub fn count(&self) -> (count: usize)
        ensures
            count == self.handlers().len(),
    {
        self.handlers.len()
    }

    /// Adds a handler, under the next identifier, and tells it the identifier.
    pub fn add_source(
        &mut self,
        source: Box<E>,
        event_kind: EventKind,
    ) -> (registration: Registration)
        requires
            old(self).wf(),
            old(self).last_id() < u64::MAX,
        ensures
            final(self).wf(),
            registration.id == old(self).last_id() + 1,
            registration.fd == source.fd(),
            registration.events == event_kind.epoll_mask(),
            final(self).last_id() == registration.id,
            final(self).handlers().dom() == old(self).handlers().dom().insert(registration.id),
            !old(self).handlers().contains_key(registration.id),
            final(self).handlers()[registration.id].fd() == source.fd(),
            final(self).handlers()[registration.id].seen() == source.seen(),
            final(self).handlers()[registration.id].ids() == source.ids().push(registration.id),
            forall|id: EventHandlerId| #[trigger]
                old(self).handlers().contains_key(id) ==> final(self).handlers()[id] == old(self).handlers()[id],
            added(*old(self), *final(self), source, registration.id),
    {
        let mut source = source;
        self.last_id += 1;
        let id = self.last_id;
        source.set_id(id);
        let fd = source.get_fd();
        self.handlers.insert(id, source);
        assert(self.handlers@.dom() =~= old(self).handlers@.dom().insert(id));
        assert forall|other: EventHandlerId| #[trigger]
            self.handlers().contains_key(other) implies other <= self.last_id() by {
            if other != id {
                assert(old(self).handlers().contains_key(other));
            }
        }
        assert(!old(self).handlers().contains_key(id));
        Registration { id, fd, events: event_kind.into_epoll() }
    }

    /// Deletes a handler and hands it back.
    pub fn delete_source(&mut self, id: EventHandlerId) -> (source: Option<Box<E>>)
        requires
            old(self).wf(),
        ensures
            final(self).wf(),
            final(self).last_id() == old(self).last_id(),
            final(self).handlers() == old(self).handlers().remove(id),
            source == (if old(self).handlers().contains_key(id) {
                Some(old(self).handlers()[id])
            } else {
                None
            }),
    {
        let source = self.handlers.remove(&id);
        assert forall|other: EventHandlerId| #[trigger]
            self.handlers().contains_key(other) implies other <= self.last_id() by {
            assert(old(self).handlers().contains_key(other));
        }
        source
    }

    /// Hands an event to the handler `id`, if there is one. After a hang-up and
    /// nothing else the handler is deleted, and handed back.
    pub fn process(
        &mut self,
        id: EventHandlerId,
        event_kind: EventKind,
    ) -> (deleted: Option<Box<E>>)
        requires
            old(self).wf(),
        ensures
            final(self).wf(),
            final(self).last_id() == old(self).last_id(),
            deleted is Some <==> event_kind.is_hangup_alone()
                && old(self).handlers().contains_key(id),
            deleted is Some ==> told(old(self).handlers()[id], deleted->0, event_kind),
            final(self).handlers().dom() == (if event_kind.is_hangup_alone() {
                old(self).handlers().dom().remove(id)
            } else {
                old(self).handlers().dom()
            }),
            old(self).handlers().contains_key(id) && !event_kind.is_hangup_alone() ==> told(
                old(self).handlers()[id],
                final(self).handlers()[id],
                event_kind,
            ),
            forall|other: EventHandlerId| #[trigger]
                old(self).handlers().contains_key(other)
                    && other != id ==> final(self).handlers()[other]
                    == old(self).handlers()[other],
    {
        let found = self.handlers.remove(&id);
        assert forall|other: EventHandlerId| #[trigger]
            self.handlers().contains_key(other) implies old(self).handlers().contains_key(other) by {}
        match found {
            Some(handler) => {
                let mut handler = handler;
                handler.process_event(event_kind);
                if event_kind == EventKind::hangup() {
                    assert(self.handlers@.dom() =~= old(self).handlers@.dom().remove(id));
                    Some(handler)
                } else {
                    self.handlers.insert(id, handler);
                    assert(self.handlers@.dom() =~= old(self).handlers@.dom());
                    assert forall|other: EventHandlerId| #[trigger]
                        self.handlers().contains_key(other) implies other <= self.last_id() by {
                        assert(old(self).handlers().contains_key(other));
                    }
                    None
                }
            },
            None => {
                assert(self.handlers@.dom() =~= old(self).handlers@.dom().remove(id));
                None
            },
        }
    }
}

/// What a wait on the kernel gave.
#[derive(Clone, Copy, PartialEq, Eq, Debug, Structural)]
pub enum Waited {
    /// The wait ended with `ready` events, of which the first is for the handler
    /// `id` and has the epoll mask `events`.
    Events { ready: usize, id: EventHandlerId, events: u32 },
    /// The wait failed with an error code.
    Error { errno: i32 },
}

/// What was done about a wait.
#[derive(Clone, Copy, PartialEq, Eq, Debug, Structural)]
pub enum WaitOutcome {
    /// An event was handed to its handler.
    Processed,
    /// Nothing was ready.
    Nothing,
    /// A signal interrupted the wait: go on.
    Interrupted,
    /// The wait failed for good, with this error code.
    Fatal(i32),
}

/// What a wait asks for.
pub open spec fn outcome_of(waited: Waited) -> WaitOutcome {
    match waited {
        Waited::Events { ready, id, events } => if ready > 0 {
            WaitOutcome::Processed
        } else {
            WaitOutcome::Nothing
        },
        Waited::Error { errno } => if errno == EINTR {
            WaitOutcome::Interrupted
        } else {
            WaitOutcome::Fatal(errno)
        },
    }
}

/// The timeout to wait with: the given number, or without end.
pub fn timeout_for(timeout: Option<usize>) -> (wait: isize)
    ensures
        wait == (match timeout {
            Some(t) => t as isize,
            None => WAIT_INFINITELY,
        }),
{
    match timeout {
        Some(t) => #[verifier::truncate]
        (t as isize),
        None => WAIT_INFINITELY,
    }
}

/// The state of a dispatcher: its handlers, and whether it is to go on.
pub struct State<E: EventHandler + ?Sized> {
    state: InnerState<E>,
    run: bool,
}

impl<E: EventHandler + ?Sized> State<E> {
    /// The table of handlers.
    pub closed spec fn inner(&self) -> InnerState<E> {
        self.state
    }

    /// Whether the dispatcher is to go on.
    pub closed spec fn running(&self) -> bool {
        self.run
    }

    pub fn new() -> (state: Self)
        ensures
            state.inner().wf(),
            state.inner().last_id() == 0,
            state.inner().handlers() == Map::<EventHandlerId, Box<E>>::empty(),
            !state.running(),
    {
        State { state: InnerState::new(), run: false }
    }

    /// Whether another handler can be added: identifiers are not used twice, and
    /// there are no more of them than a `u64` holds.
    pub fn can_add_source(&self) -> (room: bool)
        ensures
            room == (self.inner().last_id() < u64::MAX),
    {
        self.state.last_id < u64::MAX
    }

    /// Whether a handler has the identifier `id`.
    pub fn has_source(&self, id: EventHandlerId) -> (present: bool)
        ensures
            present == self.inner().handlers().contains_key(id),
    {
        self.state.has_source(id)
    }

    /// Adds a handler, under the next identifier.
    pub fn add_source(
        &mut self,
        source: Box<E>,
        event_kind: EventKind,
    ) -> (registration: Registration)
        requires
            old(self).inner().wf(),
            old(self).inner().last_id() < u64::MAX,
        ensures
            final(self).inner().wf(),
            final(self).running() == old(self).running(),
            registration.id == old(self).inner().last_id() + 1,
            registration.fd == source.fd(),
            registration.events == event_kind.epoll_mask(),
            final(self).inner().last_id() == registration.id,
            added(old(self).inner(), final(self).inner(), source, registration.id),
    {
        self.state.add_source(source, event_kind)
    }

    /// Deletes a handler and hands it back.
    pub fn delete_source(&mut self, id: EventHandlerId) -> (source: Option<Box<E>>)
        requires
            old(self).inner().wf(),
        ensures
            final(self).inner().wf(),
            final(self).running() == old(self).running(),
            final(self).inner().last_id() == old(self).inner().last_id(),
            final(self).inner().handlers() == old(self).inner().handlers().remove(id),
            source == (if old(self).inner().handlers().contains_key(id) {
                Some(old(self).inner().handlers()[id])
            } else {
                None
            }),
    {
        self.state.delete_source(id)
    }

    /// Whether the dispatcher is to go on.
    pub fn is_running(&self) -> (running: bool)
        ensures
            running == self.running(),
    {
        self.run
    }

    /// Stops the loop: the turn that is under way is the last.
    pub fn stop(&mut self)
        ensures
            !final(self).running(),
            final(self).inner() == old(self).inner(),
    {
        self.run = false;
    }
}

/// Deals with what a wait gave: hands the first event to its handler, and deletes
/// the handler after a hang-up and nothing else. An interrupted wait is passed
/// over; any other failure is fatal.
pub fn do_wait_and_process<E: EventHandler + ?Sized>(
    state: &mut State<E>,
    waited: Waited,
) -> (out: (
    WaitOutcome,
    Option<Box<E>>,
))
    requires
        old(state).inner().wf(),
    ensures
        final(state).inner().wf(),
        final(state).running() == old(state).running(),
        final(state).inner().last_id() == old(state).inner().last_id(),
        out.0 == outcome_of(waited),
        processed(old(state).inner(), final(state).inner(), waited, out.1),
{
    match waited {
        Waited::Events { ready, id, events } => {
            if ready > 0 {
                let event_kind = EventKind::from_epoll(events);
                let deleted = state.state.process(id, event_kind);
                (WaitOutcome::Processed, deleted)
            } else {
                (WaitOutcome::Nothing, None)
            }
        },
        Waited::Error { errno } => {
            if errno == errno_eintr() {
                (WaitOutcome::Interrupted, None)
            } else {
                (WaitOutcome::Fatal(errno), None)
            }
        },
    }
}

/// Whether a dispatcher goes on after a wait.
#[derive(Clone, Copy, PartialEq, Eq, Debug, Structural)]
pub enum LoopStep {
    /// Wait again.
    Continue,
    /// The dispatcher was stopped.
    Stop,
    /// The wait failed for good, with this error code.
    Fatal(i32),
}

/// Begins the loop of a dispatcher: from now on it goes on until it is stopped.
pub fn begin_run<E: EventHandler + ?Sized>(state: &mut State<E>)
    ensures
        final(state).running(),
        final(state).inner() == old(state).inner(),
{
    state.run = true;
}

/// One turn of the loop of a dispatcher: deals with what the wait gave, and then
/// says whether to wait again. The loop ends when the dispatcher was stopped.
pub fn do_run<E: EventHandler + ?Sized>(state: &mut State<E>, waited: Waited) -> (out: (
    LoopStep,
    Option<Box<E>>,
))
    requires
        old(state).inner().wf(),
    ensures
        final(state).inner().wf(),
        final(state).running() == old(state).running(),
        out.0 == (match outcome_of(waited) {
            WaitOutcome::Fatal(errno) => LoopStep::Fatal(errno),
            _ => if old(state).running() {
                LoopStep::Continue
            } else {
                LoopStep::Stop
            },
        }),
        final(state).inner().last_id() == old(state).inner().last_id(),
        final(state).inner().handlers().dom().subset_of(old(state).inner().handlers().dom()),
        processed(old(state).inner(), final(state).inner(), waited, out.1),
        out.1 is Some ==> outcome_of(waited) == WaitOutcome::Processed,
{
    let (outcome, deleted) = do_wait_and_process(state, waited);
    let step = match outcome {
        WaitOutcome::Fatal(errno) => LoopStep::Fatal(errno),
        _ => if state.run {
            LoopStep::Continue
        } else {
            LoopStep::Stop
        },
    };
    (step, deleted)
}

/// A dispatcher for one thread: its handlers need not be fit to cross threads.
/// It is meant for handlers of any kind at once: `LocalDispatcher<dyn EventHandler>`.
pub struct LocalDispatcher<E: EventHandler + ?Sized> {
    state: State<E>,
}

impl<E: EventHandler + ?Sized> LocalDispatcher<E> {
    /// The state.
    pub closed spec fn state(&self) -> State<E> {
        self.state
    }

    /// The handlers, by identifier.
    pub open spec fn handlers(&self) -> Map<EventHandlerId, Box<E>> {
        self.state().inner().handlers()
    }

    /// The invariant of the table of handlers.
    pub open spec fn wf(&self) -> bool {
        self.state().inner().wf()
    }

    pub fn new() -> (dispatcher: Self)
        ensures
            dispatcher.wf(),
            dispatcher.handlers() == Map::<EventHandlerId, Box<E>>::empty(),
            dispatcher.state().inner().last_id() == 0,
            !dispatcher.state().running(),
    {
        LocalDispatcher { state: State::new() }
    }

    /// Whether a handler has the identifier `id`.
    pub fn has_source(&self, id: EventHandlerId) -> (present: bool)
        ensures
            present == self.handlers().contains_key(id),
    {
        self.state.has_source(id)
    }

    /// Whether another handler can be added: identifiers are not used twice, and
    /// there are no more of them than a `u64` holds.
    pub fn can_add_source(&self) -> (room: bool)
        ensures
            room == (self.state().inner().last_id() < u64::MAX),
    {
        self.state.can_add_source()
    }

    /// Deals with what one wait gave.
    pub fn wait_and_process(&mut self, waited: Waited) -> (out: (WaitOutcome, Option<Box<E>>))
        requires
            old(self).wf(),
        ensures
            final(self).wf(),
            out.0 == outcome_of(waited),
            final(self).state().running() == old(self).state().running(),
            final(self).state().inner().last_id() == old(self).state().inner().last_id(),
            processed(old(self).state().inner(), final(self).state().inner(), waited, out.1),
    {
        do_wait_and_process(&mut self.state, waited)
    }

    /// Adds a handler, under the next identifier.
    pub fn add_source(
        &mut self,
        source: Box<E>,
        event_kind: EventKind,
    ) -> (registration: Registration)
        requires
            old(self).wf(),
            old(self).state().inner().last_id() < u64::MAX,
        ensures
            final(self).wf(),
            registration.id == old(self).state().inner().last_id() + 1,
            registration.fd == source.fd(),
            registration.events == event_kind.epoll_mask(),
            final(self).state().inner().last_id() == registration.id,
            added(old(self).state().inner(), final(self).state().inner(), source, registration.id),
            final(self).state().running() == old(self).state().running(),
    {
        self.state.add_source(source, event_kind)
    }

    /// Deletes a handler and hands it back.
    pub fn delete_source(&mut self, id: EventHandlerId) -> (source: Option<Box<E>>)
        requires
            old(self).wf(),
        ensures
            final(self).wf(),
            final(self).handlers() == old(self).handlers().remove(id),
            final(self).state().inner().last_id() == old(self).state().inner().last_id(),
            final(self).state().running() == old(self).state().running(),
            source is Some <==> old(self).handlers().contains_key(id),
            source is Some ==> source->0 == old(self).handlers()[id],
    {
        self.state.delete_source(id)
    }

    /// Begins the loop.
    pub fn begin_run(&mut self)
        ensures
            final(self).state().running(),
            final(self).state().inner() == old(self).state().inner(),
    {
        begin_run(&mut self.state);
    }

    /// One turn of the loop.
    pub fn run(&mut self, waited: Waited) -> (out: (LoopStep, Option<Box<E>>))
        requires
            old(self).wf(),
        ensures
            final(self).wf(),
            final(self).state().running() == old(self).state().running(),
            out.0 == (match outcome_of(waited) {
                WaitOutcome::Fatal(errno) => LoopStep::Fatal(errno),
                _ => if old(self).state().running() {
                    LoopStep::Continue
                } else {
                    LoopStep::Stop
                },
            }),
            final(self).state().inner().last_id() == old(self).state().inner().last_id(),
            processed(old(self).state().inner(), final(self).state().inner(), waited, out.1),
    {
        do_run(&mut self.state, waited)
    }

    /// Stops the loop: the turn that is under way is the last.
    pub fn stop(&mut self)
        ensures
            !final(self).state().running(),
            final(self).state().inner() == old(self).state().inner(),
    {
        self.state.stop();
    }
}

/// A dispatcher whose handlers are fit to cross threads: it can be fed from
/// other threads than the one that runs its loop. It is meant for handlers of
/// any kind at once: `Dispatcher<dyn EventHandler + Send>`.
pub struct Dispatcher<E: EventHandler + Send + ?Sized> {
    state: State<E>,
}

impl<E: EventHandler + Send + ?Sized> Dispatcher<E> {
    /// The state.
    pub closed spec fn state(&self) -> State<E> {
        self.state
    }

    /// The handlers, by identifier.
    pub open spec fn handlers(&self) -> Map<EventHandlerId, Box<E>> {
        self.state().inner().handlers()
    }

    /// The invariant of the table of handlers.
    pub open spec fn wf(&self) -> bool {
        self.state().inner().wf()
    }

    pub fn new() -> (dispatcher: Self)
        ensures
            dispatcher.wf(),
            dispatcher.handlers() == Map::<EventHandlerId, Box<E>>::empty(),
            dispatcher.state().inner().last_id() == 0,
            !dispatcher.state().running(),
    {
        Dispatcher { state: State::new() }
    }

    /// Whether another handler can be added.
    pub fn can_add_source(&self) -> (room: bool)
        ensures
            room == (self.state().inner().last_id() < u64::MAX),
    {
        self.state.can_add_source()
    }

    /// Adds a handler, under the next identifier.
    pub fn add_source(
        &mut self,
        source: Box<E>,
        event_kind: EventKind,
    ) -> (registration: Registration)
        requires
            old(self).wf(),
            old(self).state().inner().last_id() < u64::MAX,
        ensures
            final(self).wf(),
            registration.id == old(self).state().inner().last_id() + 1,
            registration.fd == source.fd(),
            registration.events == event_kind.epoll_mask(),
            final(self).state().inner().last_id() == registration.id,
            added(old(self).state().inner(), final(self).state().inner(), source, registration.id),
            final(self).state().running() == old(self).state().running(),
    {
        self.state.add_source(source, event_kind)
    }

    /// Deletes a handler and hands it back.
    pub fn delete_source(&mut self, id: EventHandlerId) -> (source: Option<Box<E>>)
        requires
            old(self).wf(),
        ensures
            final(self).wf(),
            final(self).handlers() == old(self).handlers().remove(id),
            final(self).state().inner().last_id() == old(self).state().inner().last_id(),
            final(self).state().running() == old(self).state().running(),
            source is Some <==> old(self).handlers().contains_key(id),
            source is Some ==> source->0 == old(self).handlers()[id],
    {
        self.state.delete_source(id)
    }

    /// Begins the loop.
    pub fn begin_run(&mut self)
        ensures
            final(self).state().running(),
            final(self).state().inner() == old(self).state().inner(),
    {
        begin_run(&mut self.state);
    }

    /// One turn of the loop.
    pub fn run(&mut self, waited: Waited) -> (out: (LoopStep, Option<Box<E>>))
        requires
            old(self).wf(),
        ensures
            final(self).wf(),
            final(self).state().running() == old(self).state().running(),
            out.0 == (match outcome_of(waited) {
                WaitOutcome::Fatal(errno) => LoopStep::Fatal(errno),
                _ => if old(self).state().running() {
                    LoopStep::Continue
                } else {
                    LoopStep::Stop
                },
            }),
            final(self).state().inner().last_id() == old(self).state().inner().last_id(),
            processed(old(self).state().inner(), final(self).state().inner(), waited, out.1),
    {
        do_run(&mut self.state, waited)
    }

    /// Stops the loop: the turn that is under way is the last.
    pub fn stop(&mut self)
        ensures
            !final(self).state().running(),
            final(self).state().inner() == old(self).state().inner(),
    {
        self.state.stop();
    }
}

} // verus!
