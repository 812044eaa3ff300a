//! The module that tells the device manager when the system is suspended and
//! when it wakes up.

use crate::event_loop::{Module, ModuleBox, ModuleConstructor, SignalId};
use crate::perceptron::{Perceptron, SUSPEND, WAKEUP};
use vstd::prelude::*;

verus! {

/// What the device manager is asked to do.
#[derive(Clone, Copy, PartialEq, Eq, Debug, Structural)]
pub enum ManagerAction {
    /// Let go of the devices: the system is about to be suspended.
    Suspend,
    /// Look for the devices anew: the system woke up.
    WakeUp,
}

/// What manages the input and output devices.
pub trait DeviceManager {
    /// The system is about to be suspended.
    fn on_suspend(&mut self);

    /// The system woke up.
    fn on_wakeup(&mut self);
}

/// What makes the device manager of a module, inside the thread of the module.
pub trait DeviceManagerSource<C>: Send + Sync {
    /// The device manager that is made.
    type Manager: DeviceManager;

    /// Makes the device manager, with the context of the loop.
    fn create(&self, context: &mut C) -> Self::Manager;
}

/// What a package asks of the device manager.
pub open spec fn action_for(package: Perceptron) -> Option<ManagerAction> {
    match package {
        Perceptron::Suspend => Some(ManagerAction::Suspend),
        Perceptron::WakeUp => Some(ManagerAction::WakeUp),
        _ => None,
    }
}

/// What the first `count` of `packages` ask of the device manager, in order.
pub open spec fn actions_for(packages: Seq<Perceptron>, count: int) -> Seq<ManagerAction>
    decreases count,
{
    if count <= 0 {
        Seq::empty()
    } else {
        let before = actions_for(packages, count - 1);
        match action_for(packages[count - 1]) {
            Some(action) => before.push(action),
            None => before,
        }
    }
}

/// What a package asks of the device manager.
pub fn decide(package: &Perceptron) -> (action: Option<ManagerAction>)
    ensures
        action == action_for(*package),
{
    match package {
        Perceptron::Suspend => Some(ManagerAction::Suspend),
        Perceptron::WakeUp => Some(ManagerAction::WakeUp),
        _ => None,
    }
}

/// The module of the device manager.
pub struct DeviceManagerModule<D: DeviceManager> {
    manager: D,
    received: Ghost<Seq<Perceptron>>,
    asked: Ghost<Seq<ManagerAction>>,
    initialized: Ghost<bool>,
    finalized: Ghost<bool>,
}

impl<D: DeviceManager> DeviceManagerModule<D> {
    /// The device manager.
    pub closed spec fn manager(&self) -> D {
        self.manager
    }

    /// What the device manager was asked to do, in order.
    pub closed spec fn asked(&self) -> Seq<ManagerAction> {
        self.asked@
    }

    /// The invariant: the device manager was asked what the packages asked for.
    pub closed spec fn wf(&self) -> bool {
        self.asked@ == actions_for(self.received@, self.received@.len() as int)
    }

    pub fn new(manager: D) -> (module: DeviceManagerModule<D>)
        ensures
            module.wf(),
            module.manager() == manager,
            module.asked() == Seq::<ManagerAction>::empty(),
            module.received() == Seq::<Perceptron>::empty(),
            !module.initialized(),
            !module.finalized(),
    {
        DeviceManagerModule {
            manager: manager,
            received: Ghost(Seq::empty()),
            asked: Ghost(Seq::empty()),
            initialized: Ghost(false),
            finalized: Ghost(false),
        }
    }

    /// The device manager.
    pub fn get_manager(&self) -> (manager: &D)
        ensures
            *manager == self.manager(),
    {
        &self.manager
    }
}

impl<D: DeviceManager> Module<Perceptron> for DeviceManagerModule<D> {
    open spec fn signals(&self) -> Seq<SignalId> {
        seq![SUSPEND, WAKEUP]
    }

    closed spec fn received(&self) -> Seq<Perceptron> {
        self.received@
    }

    closed spec fn initialized(&self) -> bool {
        self.initialized@
    }

    closed spec fn finalized(&self) -> bool {
        self.finalized@
    }

    fn get_signals(&self) -> (signals: Vec<SignalId>) {
        let mut signals: Vec<SignalId> = Vec::new();
        signals.push(SUSPEND);
        signals.push(WAKEUP);
        assert(signals@ =~= seq![SUSPEND, WAKEUP]);
        signals
    }

    fn initialize(&mut self)
        ensures
            final(self).asked() == old(self).asked(),
            old(self).wf() ==> final(self).wf(),
    {
        proof {
            self.initialized@ = true;
        }
    }

    /// A package arrived: the device manager is asked what the package asks for.
    fn execute(&mut self, package: &Perceptron)
        ensures
            final(self).asked() == (match action_for(*package) {
                Some(action) => old(self).asked().push(action),
                None => old(self).asked(),
            }),
            old(self).wf() ==> final(self).wf(),
    {
        match decide(package) {
            Some(ManagerAction::Suspend) => {
                self.manager.on_suspend();
                proof {
                    self.asked@ = self.asked@.push(ManagerAction::Suspend);
                }
            },
            Some(ManagerAction::WakeUp) => {
                self.manager.on_wakeup();
                proof {
                    self.asked@ = self.asked@.push(ManagerAction::WakeUp);
                }
            },
            None => {},
        }
        proof {
            let before = self.received@;
            self.received@ = self.received@.push(*package);
            lemma_actions_prefix(before, self.received@, before.len() as int);
        }
    }

    fn finalize(&mut self)
        ensures
            final(self).asked() == old(self).asked(),
            old(self).wf() ==> final(self).wf(),
    {
        proof {
            self.finalized@ = true;
        }
    }
}

/// What the first packages ask for does not depend on the later ones.
proof fn lemma_actions_prefix(a: Seq<Perceptron>, b: Seq<Perceptron>, count: int)
    requires
        count <= a.len(),
        count <= b.len(),
        forall|i: int| 0 <= i < count ==> a[i] == b[i],
    ensures
        actions_for(a, count) == actions_for(b, count),
    decreases count,
{
    if count > 0 {
        lemma_actions_prefix(a, b, count - 1);
    }
}

/// The constructor of the module of the device manager.
pub struct DeviceManagerModuleConstructor<S> {
    source: S,
}

impl<S> DeviceManagerModuleConstructor<S> {
    /// What makes the device manager of each module that is built.
    pub closed spec fn source(&self) -> S {
        self.source
    }

    pub fn new(source: S) -> (constructor: DeviceManagerModuleConstructor<S>)
        ensures
            constructor.source() == source,
    {
        DeviceManagerModuleConstructor { source: source }
    }
}

impl<C, S: DeviceManagerSource<C>> ModuleConstructor<Perceptron, C> for DeviceManagerModuleConstructor<S> where
    S::Manager: 'static,
 {
    /// What this constructor builds: a module that subscribes to the suspension
    /// and to the waking of the system, and has received nothing yet.
    open spec fn builds(&self, module: ModuleBox<Perceptron>) -> bool {
        &&& module.module.signals() == seq![SUSPEND, WAKEUP]
        &&& module.module.received() == Seq::<Perceptron>::empty()
        &&& !module.module.initialized()
        &&& !module.module.finalized()
    }

    /// Builds the module: it subscribes to the suspension and to the waking of
    /// the system, and has received nothing yet.
    fn construct(&self, context: &mut C) -> (built: ModuleBox<Perceptron>)
        ensures
            built.module.signals() == seq![SUSPEND, WAKEUP],
            built.module.received() == Seq::<Perceptron>::empty(),
            !built.module.initialized(),
            !built.module.finalized(),
    {
        let manager = self.source.create(context);
        ModuleBox { module: Box::new(DeviceManagerModule::new(manager)) }
    }
}

} // verus!
