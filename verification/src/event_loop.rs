//! The loop of one thread: modules that subscribe to signals, and the delivery of
//! each package to the modules that subscribed to its signal.
//!
//! Modules are built inside the thread that runs them, from constructors that can
//! cross threads. Receiving from the signal bus is left to the caller: it hands in
//! what it received and is told whether to go on.

use std::collections::BTreeMap;
use vstd::prelude::*;

verus! {

broadcast use {vstd::std_specs::btree::group_btree_axioms, vstd::laws_cmp::group_laws_cmp};

/// Identifier of a signal.
pub type SignalId = usize;

/// An independent part of the application. It lives in one thread and is told of
/// the packages whose signals it subscribed to.
pub trait Module<P> {
    /// The signals that the module subscribes to. A module says what they are by
    /// defining this function; one that does not is taken at its word.
    open spec fn signals(&self) -> Seq<SignalId> {
        Seq::empty()
    }

    /// The packages that the module was told of, in order. A module says what
    /// they are by defining this function; one that does not is taken at its word.
    open spec fn received(&self) -> Seq<P> {
        Seq::empty()
    }

    /// Whether the module was initialized.
    open spec fn initialized(&self) -> bool {
        false
    }

    /// Whether the module was finalized.
    open spec fn finalized(&self) -> bool {
        false
    }

    /// The signals that the module subscribes to.
    fn get_signals(&self) -> (signals: Vec<SignalId>)
        ensures
            signals@ == self.signals(),
    ;

    /// Called once, before the first package.
    fn initialize(&mut self)
        ensures
            final(self).signals() == old(self).signals(),
            final(self).received() == old(self).received(),
            final(self).initialized(),
            final(self).finalized() == old(self).finalized(),
    ;

    /// Called for every package whose signal the module subscribed to.
    fn execute(&mut self, package: &P)
        ensures
            final(self).signals() == old(self).signals(),
            final(self).received() == old(self).received().push(*package),
            final(self).initialized() == old(self).initialized(),
            final(self).finalized() == old(self).finalized(),
    ;

    /// Called once, before the loop ends.
    fn finalize(&mut self)
        ensures
            final(self).signals() == old(self).signals(),
            final(self).received() == old(self).received(),
            final(self).initialized() == old(self).initialized(),
            final(self).finalized(),
    ;
}

/// A module, ready to be added to a loop.
#[verifier::reject_recursive_types(P)]
pub struct ModuleBox<P> {
    pub module: Box<dyn Module<P>>,
}

/// Builds a module inside the thread of its loop. The constructor crosses
/// threads; the module never does.
pub trait ModuleConstructor<P, C>: Send + Sync {
    /// Whether `module` is a module as this constructor builds them. A
    /// constructor says so by defining this function; one that does not is taken
    /// at its word.
    open spec fn builds(&self, module: ModuleBox<P>) -> bool {
        true
    }

    /// Builds the module, with the context of the loop.
    fn construct(&self, context: &mut C) -> (built: ModuleBox<P>)
        ensures
            self.builds(built),
    ;
}

/// The constructor of a module, ready to be added to the plan of a loop.
#[verifier::reject_recursive_types(P)]
#[verifier::reject_recursive_types(C)]
pub struct ModuleConstructorBox<P, C> {
    pub constructor: Box<dyn ModuleConstructor<P, C>>,
}

/// A loop of its own making.
pub trait Service {
    /// Runs the loop, to its end.
    fn run(&mut self);
}

/// A service, ready to be run.
pub struct ServiceBox {
    pub service: Box<dyn Service>,
}

/// Builds a service inside its thread.
pub trait ServiceConstructor: Send + Sync {
    /// Whether `service` is a service as this constructor builds them. A
    /// constructor says so by defining this function; one that does not is taken
    /// at its word.
    open spec fn builds(&self, service: ServiceBox) -> bool {
        true
    }

    /// Builds the service.
    fn construct(&self) -> (built: ServiceBox)
        ensures
            self.builds(built),
    ;
}

/// What is needed to start a service in a thread of its own. It is meant for
/// constructors of any kind: `ServiceInfo<dyn ServiceConstructor>`.
pub struct ServiceInfo<K: ServiceConstructor + ?Sized> {
    name: String,
    constructor: Box<K>,
}

impl<K: ServiceConstructor + ?Sized> ServiceInfo<K> {
    /// The name of the thread.
    pub closed spec fn name(&self) -> Seq<char> {
        self.name@
    }

    /// The constructor of the service.
    pub closed spec fn constructor(&self) -> Box<K> {
        self.constructor
    }

    /// Keeps the name and the constructor. The service is not built yet.
    pub fn new(name: String, constructor: Box<K>) -> (info: Self)
        ensures
            info.name() == name@,
            info.constructor() == constructor,
    {
        ServiceInfo { name: name, constructor: constructor }
    }

    /// The name of the thread.
    pub fn get_name(&self) -> (name: &String)
        ensures
            name@ == self.name(),
    {
        &self.name
    }

    /// Builds the service, with the constructor that was given. To be called in
    /// the thread that is to run it.
    pub fn construct(&self) -> (built: ServiceBox)
        ensures
            self.constructor().builds(built),
    {
        self.constructor.construct()
    }
}

/// How often `id` occurs among the first `count` of `signals`.
pub open spec fn occurrences(signals: Seq<SignalId>, count: int, id: SignalId) -> nat
    decreases count,
{
    if count <= 0 {
        0
    } else {
        occurrences(signals, count - 1, id) + if signals[count - 1] == id {
            1nat
        } else {
            0nat
        }
    }
}

/// The subscribers of the signal `id` among the first `modules` modules, where
/// `listed` holds for each module the signals that it subscribes to: the modules
/// that list the signal, in their order, each once, however often it lists the
/// signal.
pub open spec fn subscribers(listed: Seq<Seq<SignalId>>, modules: int, id: SignalId) -> Seq<usize>
    decreases modules,
{
    if modules <= 0 {
        Seq::empty()
    } else {
        let before = subscribers(listed, modules - 1, id);
        if listed[modules - 1].contains(id) {
            before.push((modules - 1) as usize)
        } else {
            before
        }
    }
}

/// The subscribers once the module `module` is added to them: it comes last,
/// unless it is the last already.
pub open spec fn with_subscriber(subscribers: Seq<usize>, module: usize) -> Seq<usize> {
    if subscribers.len() > 0 && subscribers.last() == module {
        subscribers
    } else {
        subscribers.push(module)
    }
}

/// `seen` and then those of the first `count` of `signals` that are new.
pub open spec fn seen_signals(
    seen: Seq<SignalId>,
    signals: Seq<SignalId>,
    count: int,
) -> Seq<SignalId>
    decreases count,
{
    if count <= 0 {
        seen
    } else {
        let before = seen_signals(seen, signals, count - 1);
        if before.contains(signals[count - 1]) {
            before
        } else {
            before.push(signals[count - 1])
        }
    }
}

/// The signals that the first `modules` modules subscribe to, each once, in the
/// order in which they are first listed.
pub open spec fn subscribed_signals(listed: Seq<Seq<SignalId>>, modules: int) -> Seq<SignalId>
    decreases modules,
{
    if modules <= 0 {
        Seq::empty()
    } else {
        seen_signals(
            subscribed_signals(listed, modules - 1),
            listed[modules - 1],
            listed[modules - 1].len() as int,
        )
    }
}

/// For each signal the modules that subscribed to it.
pub struct Subscriptions {
    map: BTreeMap<SignalId, Vec<usize>>,
}

impl Subscriptions {
    /// The subscribers of a signal, in the order in which they are told.
    pub closed spec fn of(&self, id: SignalId) -> Seq<usize> {
        if self.map@.contains_key(id) {
            self.map@[id]@
        } else {
            Seq::empty()
        }
    }

    /// Whether the signal has subscribers.
    pub closed spec fn listed(&self, id: SignalId) -> bool {
        self.map@.contains_key(id)
    }

    /// No signal has a subscriber yet.
    pub fn new() -> (subscriptions: Subscriptions)
        ensures
            forall|id: SignalId| #[trigger] subscriptions.of(id) == Seq::<usize>::empty(),
            forall|id: SignalId| !#[trigger] subscriptions.listed(id),
    {
        Subscriptions { map: BTreeMap::new() }
    }

    /// The subscribers of a signal, if it has any.
    pub fn get(&self, id: SignalId) -> (subscribers: Option<&Vec<usize>>)
        ensures
            subscribers is Some ==> subscribers->0@ == self.of(id),
            subscribers is None ==> self.of(id) == Seq::<usize>::empty(),
    {
        self.map.get(&id)
    }

    /// Adds `module` to the subscribers of `id`, unless it was added last. Tells
    /// whether the signal had no subscriber before.
    fn subscribe(&mut self, id: SignalId, module: usize) -> (first: bool)
        ensures
            first == !old(self).listed(id),
            final(self).listed(id),
            final(self).of(id) == with_subscriber(old(self).of(id), module),
            forall|other: SignalId|
                other != id ==> #[trigger] final(self).of(other) == old(self).of(other)
                    && final(self).listed(other) == old(self).listed(other),
    {
        match self.map.remove(&id) {
            Some(subscribers) => {
                let mut subscribers = subscribers;
                let n = subscribers.len();
                if n == 0 || subscribers[n - 1] != module {
                    subscribers.push(module);
                }
                self.map.insert(id, subscribers);
                false
            },
            None => {
                let mut subscribers: Vec<usize> = Vec::new();
                subscribers.push(module);
                self.map.insert(id, subscribers);
                assert(self.map@[id]@ =~= Seq::<usize>::empty().push(module));
                true
            },
        }
    }

    /// Subscribes each module to the signals that it lists: `listed` holds the
    /// list of each module. A module is subscribed to a signal once, however often
    /// it lists the signal. Returns with the subscriptions the signals that have a
    /// subscriber, each once, in the order in which they were first listed: these
    /// are to be asked of the signal bus.
    pub fn build(listed: &Vec<Vec<SignalId>>) -> (out: (Subscriptions, Vec<SignalId>))
        ensures
            forall|id: SignalId| #[trigger]
                out.0.of(id) == subscribers(listed.deep_view(), listed@.len() as int, id),
            out.1@ == subscribed_signals(listed.deep_view(), listed@.len() as int),
            out.1@.no_duplicates(),
            forall|id: SignalId|
                out.1@.contains(id) <==> (#[trigger] out.0.of(id)).len() > 0,
    {
        let ghost lists = listed.deep_view();
        let mut subscriptions = Subscriptions::new();
        let mut asked: Vec<SignalId> = Vec::new();
        let mut i: usize = 0;
        while i < listed.len()
            invariant
                i <= listed@.len(),
                lists == listed.deep_view(),
                lists.len() == listed@.len(),
                forall|id: SignalId| #[trigger]
                    subscriptions.of(id) == subscribers(lists, i as int, id),
                forall|id: SignalId| #[trigger] subscriptions.listed(id) <==> asked@.contains(id),
                forall|id: SignalId|
                    subscriptions.listed(id) <==> (#[trigger] subscriptions.of(id)).len() > 0,
                asked@.no_duplicates(),
                asked@ == subscribed_signals(lists, i as int),
            decreases listed@.len() - i,
        {
            let signals = &listed[i];
            assert(lists[i as int] == signals@);
            let mut j: usize = 0;
            assert(signals@.subrange(0, 0) =~= Seq::<SignalId>::empty());
            while j < signals.len()
                invariant
                    i < listed@.len(),
                    j <= signals@.len(),
                    lists == listed.deep_view(),
                    lists[i as int] == signals@,
                    forall|id: SignalId| #[trigger]
                        subscriptions.of(id) == (if signals@.subrange(0, j as int).contains(id) {
                            subscribers(lists, i as int, id).push(i)
                        } else {
                            subscribers(lists, i as int, id)
                        }),
                    forall|id: SignalId| #[trigger]
                        subscriptions.listed(id) <==> asked@.contains(id),
                    forall|id: SignalId|
                        subscriptions.listed(id) <==> (#[trigger] subscriptions.of(id)).len() > 0,
                    asked@.no_duplicates(),
                    asked@ == seen_signals(subscribed_signals(lists, i as int), signals@, j as int),
                decreases signals@.len() - j,
            {
                let id = signals[j];
                let ghost before = subscriptions;
                let ghost asked_before = asked@;
                let ghost seen = signals@.subrange(0, j as int);
                let ghost more = signals@.subrange(0, j + 1);
                let first = subscriptions.subscribe(id, i);
                if first {
                    asked.push(id);
                }
                proof {
                    assert(more =~= seen.push(id));
                    assert(more.contains(id)) by {
                        assert(more[j as int] == id);
                    }
                    assert forall|other: SignalId| #[trigger]
                        subscriptions.of(other) == (if more.contains(other) {
                            subscribers(lists, i as int, other).push(i)
                        } else {
                            subscribers(lists, i as int, other)
                        }) by {
                        let known = subscribers(lists, i as int, other);
                        if other == id {
                            if seen.contains(id) {
                                assert(before.of(id) == known.push(i));
                                assert(known.push(i).last() == i);
                            } else {
                                assert(before.of(id) == known);
                                if known.len() > 0 {
                                    lemma_subscribers_in_range(lists, i as int, id, known.len() - 1);
                                }
                            }
                        } else {
                            assert(subscriptions.of(other) == before.of(other));
                            if seen.contains(other) {
                                let k = seen.index_of(other);
                                assert(more[k] == other);
                            }
                            if more.contains(other) {
                                let k = more.index_of(other);
                                assert(k < j);
                                assert(seen[k] == other);
                            }
                        }
                    }
                    assert forall|other: SignalId| #[trigger]
                        subscriptions.listed(other) <==> asked@.contains(other) by {
                        if other == id {
                            if first {
                                assert(asked@[asked@.len() - 1] == id);
                            } else {
                                assert(before.listed(id));
                                let k = asked_before.index_of(id);
                                assert(asked@[k] == id);
                            }
                        } else {
                            assert(subscriptions.of(other) == before.of(other));
                            assert(before.listed(other) <==> asked_before.contains(other));
                            if asked_before.contains(other) {
                                let k = asked_before.index_of(other);
                                assert(asked@[k] == other);
                            }
                            if asked@.contains(other) {
                                let k = asked@.index_of(other);
                                assert(asked_before[k] == other);
                            }
                        }
                    }
                    assert forall|other: SignalId|
                        subscriptions.listed(other) <==> (#[trigger] subscriptions.of(other)).len()
                            > 0 by {
                        if other != id {
                            assert(subscriptions.of(other) == before.of(other));
                            assert(before.listed(other) <==> before.of(other).len() > 0);
                        }
                    }
                    assert(before.listed(id) <==> asked_before.contains(id));
                }
                j += 1;
            }
            proof {
                assert(signals@.subrange(0, j as int) =~= signals@);
            }
            i += 1;
        }
        proof {
            assert forall|id: SignalId|
                asked@.contains(id) <==> (#[trigger] subscriptions.of(id)).len() > 0 by {
                assert(subscriptions.listed(id) <==> asked@.contains(id));
            }
        }
        (subscriptions, asked)
    }
}

/// What is needed to start a loop in a thread of its own: the constructors of its
/// modules and the context that the constructors are given.
#[verifier::reject_recursive_types(P)]
#[verifier::reject_recursive_types(C)]
pub struct EventLoopInfo<P, C> {
    name: String,
    constructors: Vec<ModuleConstructorBox<P, C>>,
    context: C,
}

impl<P, C> EventLoopInfo<P, C> {
    /// The name of the thread.
    pub closed spec fn name(&self) -> Seq<char> {
        self.name@
    }

    /// The constructors of the modules, in the order in which they were added.
    pub closed spec fn constructors(&self) -> Seq<ModuleConstructorBox<P, C>> {
        self.constructors@
    }

    /// How many modules the loop is to have.
    pub open spec fn module_count(&self) -> nat {
        self.constructors().len()
    }

    /// The context.
    pub closed spec fn context(&self) -> C {
        self.context
    }

    pub fn new(name: String, context: C) -> (info: Self)
        ensures
            info.name() == name@,
            info.constructors() == Seq::<ModuleConstructorBox<P, C>>::empty(),
            info.context() == context,
    {
        EventLoopInfo { name: name, constructors: Vec::new(), context: context }
    }

    /// Adds the constructor of a module.
    pub fn add_module(&mut self, constructor: ModuleConstructorBox<P, C>)
        ensures
            final(self).name() == old(self).name(),
            final(self).constructors() == old(self).constructors().push(constructor),
            final(self).context() == old(self).context(),
    {
        self.constructors.push(constructor);
    }

    /// The name of the thread.
    pub fn get_name(&self) -> (name: &String)
        ensures
            name@ == self.name(),
    {
        &self.name
    }
}

/// An order that the signal bus gives to a loop.
#[derive(Clone, Copy, PartialEq, Eq, Debug, Structural)]
pub enum SpecialCommand {
    /// End the loop.
    Terminate,
}

/// What a receiver of the signal bus gave.
pub enum ReceiveResult<P> {
    /// A package without a signal.
    Plain(P),
    /// A package with the signal that it was emitted under.
    Defined(SignalId, P),
    /// A package under a name of the sender's choice.
    Custom(String, P),
    /// A package of any other kind.
    Any(String, P),
    /// An order for the loop.
    Special(SpecialCommand),
    /// Nothing came in time.
    Timeout,
    /// Nothing was there.
    Empty,
    /// The bus failed.
    Failure,
}

/// Whether a loop goes on.
#[derive(Clone, Copy, PartialEq, Eq, Debug, Structural)]
pub enum LoopControl {
    /// Receive again.
    Continue,
    /// The loop was told to end.
    Terminate,
    /// The loop cannot go on.
    Failed,
}

/// What a loop does about what it received: a package with a signal is delivered
/// and the loop goes on, as it does past a package of any other kind; the order
/// to terminate ends it; a timeout, an empty queue and a failure of the bus are
/// failures.
pub open spec fn control_of<P>(result: ReceiveResult<P>) -> LoopControl {
    match result {
        ReceiveResult::Defined(_, _) => LoopControl::Continue,
        ReceiveResult::Plain(_) => LoopControl::Continue,
        ReceiveResult::Custom(_, _) => LoopControl::Continue,
        ReceiveResult::Special(SpecialCommand::Terminate) => LoopControl::Terminate,
        ReceiveResult::Any(_, _) => LoopControl::Continue,
        ReceiveResult::Timeout => LoopControl::Failed,
        ReceiveResult::Empty => LoopControl::Failed,
        ReceiveResult::Failure => LoopControl::Failed,
    }
}

/// What the module `module` has received once `package` went to the first
/// `count` of `subscribers`.
pub open spec fn received_after<P>(
    received: Seq<P>,
    subscribers: Seq<usize>,
    count: int,
    module: int,
    package: P,
) -> Seq<P>
    decreases count,
{
    if count <= 0 {
        received
    } else {
        let before = received_after(received, subscribers, count - 1, module, package);
        if subscribers[count - 1] == module {
            before.push(package)
        } else {
            before
        }
    }
}

/// Every subscriber is one of the first `modules` modules.
pub proof fn lemma_subscribers_in_range(listed: Seq<Seq<SignalId>>, modules: int, id: SignalId, k: int)
    requires
        0 <= modules <= usize::MAX,
        0 <= k < subscribers(listed, modules, id).len(),
    ensures
        0 <= subscribers(listed, modules, id)[k] < modules,
    decreases modules,
{
    if modules > 0 {
        let before = subscribers(listed, modules - 1, id);
        if k < before.len() {
            lemma_subscribers_in_range(listed, modules - 1, id, k);
        }
    }
}

/// The loop of one thread.
#[verifier::reject_recursive_types(P)]
pub struct EventLoop<P> {
    modules: Vec<ModuleBox<P>>,
    subscriptions: Subscriptions,
}

impl<P> EventLoop<P> {
    /// The modules, in the order in which they are told of a package.
    pub closed spec fn modules(&self) -> Seq<ModuleBox<P>> {
        self.modules@
    }

    /// The subscribers of a signal: positions among the modules.
    pub closed spec fn subscribers(&self, id: SignalId) -> Seq<usize> {
        self.subscriptions.of(id)
    }

    /// The signals that each module subscribes to.
    pub open spec fn listed(&self) -> Seq<Seq<SignalId>> {
        Seq::new(self.modules().len(), |m: int| self.modules()[m].module.signals())
    }

    /// The invariant of a loop: every subscriber is one of its modules.
    pub open spec fn wf(&self) -> bool {
        forall|id: SignalId, k: int|
            0 <= k < self.subscribers(id).len() ==> 0 <= #[trigger] self.subscribers(id)[k]
                < self.modules().len()
    }

    /// Whether `other` has the same modules, with the same subscriptions, and
    /// none of them has received anything since.
    pub open spec fn unchanged_since(&self, other: &EventLoop<P>) -> bool {
        &&& self.modules().len() == other.modules().len()
        &&& forall|id: SignalId| #[trigger] self.subscribers(id) == other.subscribers(id)
        &&& forall|m: int|
            0 <= m < self.modules().len() ==> (#[trigger] self.modules()[m]).module.signals()
                == other.modules()[m].module.signals() && self.modules()[m].module.received()
                == other.modules()[m].module.received()
    }

    /// Builds the modules of a loop, in the order in which their constructors
    /// were added: each module is built by the constructor at its place, with the
    /// context of the loop. No module has subscribed yet.
    pub fn new<C>(info: EventLoopInfo<P, C>) -> (event_loop: Self)
        ensures
            event_loop.wf(),
            event_loop.modules().len() == info.constructors().len(),
            forall|i: int|
                0 <= i < info.constructors().len() ==> (#[trigger] info.constructors()[i]).constructor.builds(
                    event_loop.modules()[i],
                ),
            forall|id: SignalId| #[trigger] event_loop.subscribers(id) == Seq::<usize>::empty(),
    {
        let mut info = info;
        let mut modules: Vec<ModuleBox<P>> = Vec::new();
        let n = info.constructors.len();
        let ghost constructors = info.constructors@;
        let mut i: usize = 0;
        while i < n
            invariant
                i <= n,
                n == constructors.len(),
                info.constructors@ == constructors,
                modules@.len() == i,
                forall|k: int|
                    0 <= k < i ==> (#[trigger] constructors[k]).constructor.builds(modules@[k]),
            decreases n - i,
        {
            let built = info.constructors[i].constructor.construct(&mut info.context);
            modules.push(built);
            i += 1;
        }
        EventLoop { modules: modules, subscriptions: Subscriptions::new() }
    }
}

impl<P> EventLoop<P> {
    /// How many modules the loop has.
    pub fn module_count(&self) -> (count: usize)
        ensures
            count == self.modules().len(),
    {
        self.modules.len()
    }

    /// The subscribers of a signal, in the order in which they are told.
    pub fn get_subscribers(&self, id: SignalId) -> (subscribers: Vec<usize>)
        ensures
            subscribers@ == self.subscribers(id),
    {
        let mut subscribers: Vec<usize> = Vec::new();
        if let Some(found) = self.subscriptions.get(id) {
            let mut k: usize = 0;
            while k < found.len()
                invariant
                    k <= found@.len(),
                    subscribers@ == found@.subrange(0, k as int),
                decreases found@.len() - k,
            {
                subscribers.push(found[k]);
                assert(subscribers@ =~= found@.subrange(0, k + 1));
                k += 1;
            }
            assert(found@.subrange(0, k as int) =~= found@);
        }
        subscribers
    }

    /// Subscribes each module to the signals that it lists, and initializes the
    /// modules in their order. Returns the signals to ask of the signal bus: those
    /// that have a subscriber, each once, in the order in which they were first
    /// listed.
    pub fn initialize(&mut self) -> (asked: Vec<SignalId>)
        ensures
            final(self).wf(),
            final(self).modules().len() == old(self).modules().len(),
            final(self).listed() == old(self).listed(),
            forall|m: int|
                0 <= m < old(self).modules().len() ==> (#[trigger] final(self).modules()[m]).module.received()
                    == old(self).modules()[m].module.received()
                        && final(self).modules()[m].module.initialized()
                        && final(self).modules()[m].module.finalized()
                    == old(self).modules()[m].module.finalized(),
            forall|id: SignalId| #[trigger]
                final(self).subscribers(id) == subscribers(
                    old(self).listed(),
                    old(self).modules().len() as int,
                    id,
                ),
            asked@ == subscribed_signals(old(self).listed(), old(self).modules().len() as int),
            asked@.no_duplicates(),
            forall|id: SignalId|
                asked@.contains(id) <==> (#[trigger] final(self).subscribers(id)).len() > 0,
    {
        let ghost lists = self.listed();
        let n = self.modules.len();
        let mut listed: Vec<Vec<SignalId>> = Vec::new();
        let mut i: usize = 0;
        while i < n
            invariant
                i <= n,
                n == self.modules@.len(),
                self.modules@ == old(self).modules@,
                lists == old(self).listed(),
                listed@.len() == i,
                forall|m: int| 0 <= m < i ==> (#[trigger] listed@[m])@ == lists[m],
            decreases n - i,
        {
            let signals = self.modules[i].module.get_signals();
            listed.push(signals);
            i += 1;
        }
        assert(listed.deep_view() =~= lists) by {
            assert forall|m: int| 0 <= m < lists.len() implies #[trigger] listed.deep_view()[m]
                == lists[m] by {
                assert(listed@[m]@ == lists[m]);
                assert(listed.deep_view()[m] =~= listed@[m]@);
            }
        }
        let (subscriptions, asked) = Subscriptions::build(&listed);
        self.subscriptions = subscriptions;
        let mut j: usize = 0;
        while j < n
            invariant
                j <= n,
                n == self.modules@.len(),
                n == old(self).modules@.len(),
                forall|m: int|
                    0 <= m < n ==> (#[trigger] self.modules@[m]).module.signals() == old(self).modules@[m].module.signals()
                        && self.modules@[m].module.received() == old(self).modules@[m].module.received()
                        && self.modules@[m].module.finalized() == old(self).modules@[m].module.finalized(),
                forall|m: int| 0 <= m < j ==> (#[trigger] self.modules@[m]).module.initialized(),
                forall|id: SignalId| #[trigger]
                    self.subscriptions.of(id) == subscribers(lists, n as int, id),
                forall|id: SignalId|
                    asked@.contains(id) <==> (#[trigger] self.subscriptions.of(id)).len() > 0,
            decreases n - j,
        {
            self.modules[j].module.initialize();
            j += 1;
        }
        proof {
            assert(self.listed() =~= old(self).listed());
            assert forall|id: SignalId, k: int| 0 <= k < self.subscribers(id).len() implies 0
                <= #[trigger] self.subscribers(id)[k] < self.modules().len() by {
                lemma_subscribers_in_range(lists, n as int, id, k);
            }
        }
        asked
    }

    /// Deals with what the receiver gave. A package with a signal goes to every
    /// subscriber of the signal, in the order of the subscribers, and to no other
    /// module. Then tells whether the loop goes on.
    pub fn do_run(&mut self, result: ReceiveResult<P>) -> (control: LoopControl)
        requires
            old(self).wf(),
        ensures
            final(self).wf(),
            control == control_of(result),
            final(self).modules().len() == old(self).modules().len(),
            final(self).listed() == old(self).listed(),
            forall|id: SignalId| #[trigger] final(self).subscribers(id) == old(self).subscribers(id),
            forall|m: int|
                0 <= m < old(self).modules().len() ==> (#[trigger] final(self).modules()[m]).module.initialized()
                    == old(self).modules()[m].module.initialized()
                        && final(self).modules()[m].module.finalized() == old(self).modules()[m].module.finalized(),
            match result {
                ReceiveResult::Defined(id, package) => forall|m: int|
                    0 <= m < old(self).modules().len() ==> (#[trigger] final(self).modules()[m]).module.received() == received_after(
                        old(self).modules()[m].module.received(),
                        old(self).subscribers(id),
                        old(self).subscribers(id).len() as int,
                        m,
                        package,
                    ),
                _ => forall|m: int|
                    0 <= m < old(self).modules().len() ==> (#[trigger] final(self).modules()[m]).module.received()
                        == old(self).modules()[m].module.received(),
            },
    {
        let control = match result {
            ReceiveResult::Defined(id, package) => {
                self.deliver(id, &package);
                LoopControl::Continue
            },
            ReceiveResult::Special(command) => {
                match command {
                    SpecialCommand::Terminate => LoopControl::Terminate,
                }
            },
            ReceiveResult::Plain(_) => LoopControl::Continue,
            ReceiveResult::Custom(_, _) => LoopControl::Continue,
            ReceiveResult::Any(_, _) => LoopControl::Continue,
            ReceiveResult::Timeout => LoopControl::Failed,
            ReceiveResult::Empty => LoopControl::Failed,
            ReceiveResult::Failure => LoopControl::Failed,
        };
        assert(self.listed() =~= old(self).listed());
        control
    }

    /// Tells every subscriber of a signal of a package.
    fn deliver(&mut self, id: SignalId, package: &P)
        requires
            old(self).wf(),
        ensures
            final(self).wf(),
            final(self).modules().len() == old(self).modules().len(),
            forall|other: SignalId| #[trigger]
                final(self).subscribers(other) == old(self).subscribers(other),
            forall|m: int|
                0 <= m < old(self).modules().len() ==> (#[trigger] final(self).modules()[m]).module.signals()
                    == old(self).modules()[m].module.signals()
                        && final(self).modules()[m].module.initialized()
                    == old(self).modules()[m].module.initialized()
                        && final(self).modules()[m].module.finalized() == old(self).modules()[m].module.finalized()
                    && final(self).modules()[m].module.received() == received_after(
                    old(self).modules()[m].module.received(),
                    old(self).subscribers(id),
                    old(self).subscribers(id).len() as int,
                    m,
                    *package,
                ),
    {
        let subscribers = self.get_subscribers(id);
        let n = subscribers.len();
        let ghost count = self.modules@.len();
        let mut k: usize = 0;
        while k < n
            invariant
                k <= n,
                n == subscribers@.len(),
                subscribers@ == old(self).subscribers(id),
                count == self.modules@.len(),
                count == old(self).modules@.len(),
                self.subscriptions == old(self).subscriptions,
                forall|i: int| 0 <= i < n ==> 0 <= #[trigger] subscribers@[i] < count,
                forall|m: int|
                    0 <= m < count ==> (#[trigger] self.modules@[m]).module.signals() == old(self).modules@[m].module.signals()
                        && self.modules@[m].module.initialized()
                        == old(self).modules@[m].module.initialized()
                        && self.modules@[m].module.finalized() == old(self).modules@[m].module.finalized()
                        && self.modules@[m].module.received() == received_after(
                        old(self).modules@[m].module.received(),
                        subscribers@,
                        k as int,
                        m,
                        *package,
                    ),
            decreases n - k,
        {
            let target = subscribers[k];
            assert(0 <= subscribers@[k as int] < count);
            self.modules[target].module.execute(package);
            k += 1;
        }
        assert forall|other: SignalId, i: int| 0 <= i < self.subscribers(other).len() implies 0
            <= #[trigger] self.subscribers(other)[i] < self.modules().len() by {
            assert(self.subscribers(other) == old(self).subscribers(other));
            assert(0 <= old(self).subscribers(other)[i] < old(self).modules().len());
        }
    }

    /// Finalizes the modules, in their order.
    pub fn finalize(&mut self)
        ensures
            final(self).unchanged_since(old(self)),
            forall|m: int|
                0 <= m < old(self).modules().len() ==> (#[trigger] final(self).modules()[m]).module.finalized()
                    && final(self).modules()[m].module.initialized() == old(self).modules()[m].module.initialized(),
            old(self).wf() ==> final(self).wf(),
    {
        let n = self.modules.len();
        let mut j: usize = 0;
        while j < n
            invariant
                j <= n,
                n == self.modules@.len(),
                n == old(self).modules@.len(),
                self.subscriptions == old(self).subscriptions,
                forall|m: int|
                    0 <= m < n ==> (#[trigger] self.modules@[m]).module.signals() == old(self).modules@[m].module.signals()
                        && self.modules@[m].module.received() == old(self).modules@[m].module.received()
                        && self.modules@[m].module.initialized() == old(self).modules@[m].module.initialized(),
                forall|m: int| 0 <= m < j ==> (#[trigger] self.modules@[m]).module.finalized(),
            decreases n - j,
        {
            self.modules[j].module.finalize();
            j += 1;
        }
    }
}

/// How often a module occurs among the first items of a list does not depend on
/// the later ones.
proof fn lemma_occurrences_prefix(a: Seq<usize>, b: Seq<usize>, count: int, module: usize)
    requires
        count <= a.len(),
        count <= b.len(),
        forall|i: int| 0 <= i < count ==> a[i] == b[i],
    ensures
        occurrences(a, count, module) == occurrences(b, count, module),
    decreases count,
{
    if count > 0 {
        lemma_occurrences_prefix(a, b, count - 1, module);
    }
}

/// Every module that lists a signal is among the subscribers of the signal
/// exactly once, however often it lists the signal; a module that does not list
/// the signal is not among them.
pub proof fn lemma_subscribed_once(listed: Seq<Seq<SignalId>>, modules: int, id: SignalId, module: usize)
    requires
        0 <= modules <= listed.len(),
        modules <= usize::MAX,
    ensures
        occurrences(
            subscribers(listed, modules, id),
            subscribers(listed, modules, id).len() as int,
            module,
        ) == (if module < modules && listed[module as int].contains(id) {
            1nat
        } else {
            0nat
        }),
    decreases modules,
{
    if modules > 0 {
        lemma_subscribed_once(listed, modules - 1, id, module);
        let before = subscribers(listed, modules - 1, id);
        let now = subscribers(listed, modules, id);
        if listed[modules - 1].contains(id) {
            lemma_occurrences_prefix(now, before, before.len() as int, module);
        }
    }
}

/// The subscribers of a signal stand in the order of the modules: each is a
/// later module than the one before it.
pub proof fn lemma_subscribers_increasing(listed: Seq<Seq<SignalId>>, modules: int, id: SignalId, a: int, b: int)
    requires
        0 <= modules <= usize::MAX,
        0 <= a < b < subscribers(listed, modules, id).len(),
    ensures
        subscribers(listed, modules, id)[a] < subscribers(listed, modules, id)[b],
    decreases modules,
{
    if modules > 0 {
        let before = subscribers(listed, modules - 1, id);
        if b < before.len() {
            lemma_subscribers_increasing(listed, modules - 1, id, a, b);
        } else {
            lemma_subscribers_in_range(listed, modules - 1, id, a);
        }
    }
}

/// A module is among the subscribers of a signal exactly if it lists the signal.
pub proof fn lemma_subscribers_are_listers(listed: Seq<Seq<SignalId>>, modules: int, id: SignalId, module: usize)
    requires
        0 <= modules <= listed.len(),
        modules <= usize::MAX,
    ensures
        subscribers(listed, modules, id).contains(module) <==> module < modules && listed[module as int].contains(
            id,
        ),
    decreases modules,
{
    if modules > 0 {
        lemma_subscribers_are_listers(listed, modules - 1, id, module);
        let before = subscribers(listed, modules - 1, id);
        let now = subscribers(listed, modules, id);
        if listed[modules - 1].contains(id) {
            if before.contains(module) {
                let k = before.index_of(module);
                assert(now[k] == module);
            }
            if now.contains(module) {
                let k = now.index_of(module);
                if k < before.len() {
                    assert(before[k] == module);
                }
            }
            assert(now[before.len() as int] == (modules - 1) as usize);
        }
    }
}

} // verus!
