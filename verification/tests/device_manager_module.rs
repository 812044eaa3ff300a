use perceptia::defs::SurfaceId;
use perceptia::device_manager_module::{
    decide, DeviceManager, DeviceManagerModule, DeviceManagerModuleConstructor,
    DeviceManagerSource, ManagerAction,
};
use perceptia::event_loop::{
    EventLoop, EventLoopInfo, LoopControl, Module, ModuleConstructor, ModuleConstructorBox,
    ReceiveResult,
};
use perceptia::perceptron::{
    signal_of, Perceptron, DISPLAY_CREATED, NOTIFY, OUTPUT_FOUND, PAGE_FLIP, SURFACE_DESTROYED,
    SURFACE_READY, SUSPEND, WAKEUP,
};
use std::sync::{Arc, Mutex};

type Log = Arc<Mutex<Vec<&'static str>>>;

struct Manager {
    log: Log,
}

impl DeviceManager for Manager {
    fn on_suspend(&mut self) {
        self.log.lock().unwrap().push("suspend");
    }

    fn on_wakeup(&mut self) {
        self.log.lock().unwrap().push("wakeup");
    }
}

struct Source {
    log: Log,
}

impl DeviceManagerSource<u8> for Source {
    type Manager = Manager;

    fn create(&self, context: &mut u8) -> Manager {
        *context += 1;
        Manager { log: self.log.clone() }
    }
}

#[test]
fn device_manager_listens_to_suspend_and_wakeup() {
    let module = DeviceManagerModule::new(Manager { log: Log::default() });
    assert_eq!(module.get_signals(), vec![SUSPEND, WAKEUP]);
}

#[test]
fn packages_are_decided_on() {
    assert_eq!(decide(&Perceptron::Suspend), Some(ManagerAction::Suspend));
    assert_eq!(decide(&Perceptron::WakeUp), Some(ManagerAction::WakeUp));
    assert_eq!(decide(&Perceptron::Notify), None);
    assert_eq!(decide(&Perceptron::PageFlip(1)), None);
    assert_eq!(decide(&Perceptron::SurfaceReady(SurfaceId::new(1))), None);
}

#[test]
fn suspend_and_wakeup_reach_the_device_manager_in_order() {
    let log = Log::default();
    let mut module = DeviceManagerModule::new(Manager { log: log.clone() });
    module.initialize();
    assert!(log.lock().unwrap().is_empty());
    module.execute(&Perceptron::Suspend);
    module.execute(&Perceptron::Notify);
    module.execute(&Perceptron::WakeUp);
    module.execute(&Perceptron::PageFlip(1));
    module.execute(&Perceptron::Suspend);
    module.finalize();
    assert_eq!(*log.lock().unwrap(), vec!["suspend", "wakeup", "suspend"]);
    assert_eq!(module.get_manager().log.lock().unwrap().len(), 3);
}

#[test]
fn constructor_builds_the_module_for_a_loop() {
    let log = Log::default();
    let mut info: EventLoopInfo<Perceptron, u8> = EventLoopInfo::new("devices".to_string(), 0);
    info.add_module(ModuleConstructorBox {
        constructor: Box::new(DeviceManagerModuleConstructor::new(Source { log: log.clone() })),
    });
    let mut event_loop = EventLoop::new(info);
    assert_eq!(event_loop.initialize(), vec![SUSPEND, WAKEUP]);
    assert_eq!(event_loop.get_subscribers(SUSPEND), vec![0]);
    assert_eq!(event_loop.get_subscribers(WAKEUP), vec![0]);
    assert!(event_loop.get_subscribers(NOTIFY).is_empty());
    assert_eq!(
        event_loop.do_run(ReceiveResult::Defined(SUSPEND, Perceptron::Suspend)),
        LoopControl::Continue
    );
    assert_eq!(
        event_loop.do_run(ReceiveResult::Defined(WAKEUP, Perceptron::WakeUp)),
        LoopControl::Continue
    );
    assert_eq!(
        event_loop.do_run(ReceiveResult::Defined(NOTIFY, Perceptron::Notify)),
        LoopControl::Continue
    );
    assert_eq!(*log.lock().unwrap(), vec!["suspend", "wakeup"]);
    let mut context = 0u8;
    let constructor = DeviceManagerModuleConstructor::new(Source { log: log.clone() });
    let built = constructor.construct(&mut context);
    assert_eq!(context, 1);
    assert_eq!(built.module.get_signals(), vec![SUSPEND, WAKEUP]);
}

#[test]
fn every_package_has_its_signal() {
    let signals = [
        signal_of(&Perceptron::Notify),
        signal_of(&Perceptron::Suspend),
        signal_of(&Perceptron::WakeUp),
        signal_of(&Perceptron::PageFlip(3)),
        signal_of(&Perceptron::SurfaceReady(SurfaceId::new(1))),
        signal_of(&Perceptron::SurfaceDestroyed(SurfaceId::new(1))),
    ];
    assert_eq!(signals, [NOTIFY, SUSPEND, WAKEUP, PAGE_FLIP, SURFACE_READY, SURFACE_DESTROYED]);
    let all = [
        NOTIFY,
        SUSPEND,
        WAKEUP,
        OUTPUT_FOUND,
        DISPLAY_CREATED,
        PAGE_FLIP,
        SURFACE_READY,
        SURFACE_DESTROYED,
    ];
    for (i, a) in all.iter().enumerate() {
        for b in all.iter().skip(i + 1) {
            assert_ne!(a, b);
        }
    }
}
