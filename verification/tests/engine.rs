use perceptia::defs::{
    Area, Button, DrmBundle, Key, MemoryPoolId, MemoryViewId, Milliseconds, ObjectId, OutputInfo,
    Position, ShowReason, Size, SurfaceId, SurfaceState, WindowInfo,
};
use perceptia::dispatcher::{EventHandler, WaitOutcome, Waited};
use perceptia::engine::{socket_name, Delivery, Engine, FocusCall, SOCKET_NAMES};
use perceptia::event_kind::EventKind;
use perceptia::global::Interface;
use perceptia::messages::{ButtonState, Event, Request, ShellSurfaceOid, ToplevelStates};
use perceptia::protocol::display::Display;
use perceptia::protocol::{ProtocolObject, Task};
use perceptia::proxy::FacadeRequest;
use std::cell::RefCell;
use std::rc::Rc;

struct Socket {
    fd: i32,
    seen: Rc<RefCell<Vec<EventKind>>>,
}

impl EventHandler for Socket {
    fn get_fd(&self) -> i32 {
        self.fd
    }

    fn process_event(&mut self, event_kind: EventKind) {
        self.seen.borrow_mut().push(event_kind);
    }

    fn set_id(&mut self, _id: u64) {}
}

fn socket(fd: i32) -> Box<dyn EventHandler> {
    Box::new(Socket { fd, seen: Rc::new(RefCell::new(Vec::new())) })
}

fn output(id: i32) -> OutputInfo {
    OutputInfo {
        id,
        area: Area::new(Position::new(0, 0), Size::new(1920, 1080)),
        physical_size: Size::new(500, 300),
        refresh_rate: 60,
        make: String::new(),
        model: String::new(),
    }
}

fn oid(value: u32) -> ObjectId {
    ObjectId::new(value)
}

fn sid(value: u64) -> SurfaceId {
    SurfaceId::new(value)
}

#[test]
fn socket_names_go_from_wayland_0_to_wayland_9() {
    assert_eq!(SOCKET_NAMES, 10);
    assert_eq!(socket_name(0), Some("wayland-0".to_string()));
    assert_eq!(socket_name(5), Some("wayland-5".to_string()));
    assert_eq!(socket_name(9), Some("wayland-9".to_string()));
    assert_eq!(socket_name(10), None);
    assert_eq!(socket_name(usize::MAX), None);
}

#[test]
fn socket_bind_fallback() {
    // wayland-0 is taken by another process: the engine goes on to wayland-1.
    let taken = vec!["wayland-0".to_string()];
    let mut attempt = 0;
    let bound = loop {
        match socket_name(attempt) {
            Some(name) => {
                if !taken.contains(&name) {
                    break Some(name);
                }
                attempt += 1;
            }
            None => break None,
        }
    };
    assert_eq!(bound, Some("wayland-1".to_string()));
}

#[test]
fn socket_bind_fails_when_all_ten_names_are_taken() {
    let mut attempt = 0;
    let mut tried = Vec::new();
    while let Some(name) = socket_name(attempt) {
        tried.push(name);
        attempt += 1;
    }
    assert_eq!(tried.len(), 10);
    assert_eq!(tried[0], "wayland-0");
    assert_eq!(tried[9], "wayland-9");
}

#[test]
fn start_registers_listening_socket_for_reading() {
    let mut engine = Engine::<dyn EventHandler>::new();
    let registration = engine.start(socket(3));
    assert_eq!(registration.id, 1);
    assert_eq!(registration.fd, 3);
    assert_eq!(registration.events, 0x1);
    assert!(!engine.has_client(1));
}

#[test]
fn new_client_is_known_by_the_id_of_its_handler() {
    let mut engine = Engine::<dyn EventHandler>::new();
    engine.start(socket(3));
    let (registration, _) = engine.handle_new_client(socket(8));
    assert_eq!(registration.id, 2);
    assert_eq!(registration.fd, 8);
    assert_eq!(registration.events, 0x1);
    assert!(engine.has_client(2));
    assert!(engine.process_events(2));
    assert!(!engine.process_events(1));
    assert!(!engine.process_events(3));
}

#[test]
fn client_hang_up_cleanup() {
    // A client with three surfaces and one memory pool hangs up.
    let mut engine = Engine::<dyn EventHandler>::new();
    engine.start(socket(3));
    let client = engine.handle_new_client(socket(8)).0.id;
    let other = engine.handle_new_client(socket(9)).0.id;
    engine.handle_request(client, FacadeRequest::CreateMemoryPool { mpid: MemoryPoolId { value: 1 } });
    engine.handle_request(client, FacadeRequest::CreateSurface { oid: oid(5), sid: sid(100) });
    engine.handle_request(client, FacadeRequest::CreateSurface { oid: oid(6), sid: sid(101) });
    engine.handle_request(client, FacadeRequest::CreateSurface { oid: oid(7), sid: sid(102) });
    engine.handle_request(client, FacadeRequest::AddKeyboardOid { keyboard_oid: oid(11) });
    engine.handle_request(other, FacadeRequest::CreateSurface { oid: oid(5), sid: sid(200) });
    for surface in [100, 101, 102] {
        assert_eq!(engine.get_client_for_sid(sid(surface)), Some(client));
    }
    let key = Key { code: 30, value: 1, time: Milliseconds::new(1) };
    assert!(engine.on_keyboard_input(key, None, sid(100)).is_some());

    let (handler, requests) = engine.terminate_client(client);
    // The dispatcher holds the handler of the client no more.
    assert_eq!(handler.map(|handler| handler.get_fd()), Some(8));
    // The memory pool and the surfaces are destroyed through the coordinator.
    assert_eq!(
        requests,
        vec![
            Request::DestroyMemoryPool { mpid: MemoryPoolId { value: 1 } },
            Request::DestroySurface { sid: sid(100) },
            Request::DestroySurface { sid: sid(101) },
            Request::DestroySurface { sid: sid(102) },
        ]
    );
    // The mediator has forgotten the three surfaces, and no other.
    for surface in [100, 101, 102] {
        assert_eq!(engine.get_client_for_sid(sid(surface)), None);
    }
    assert_eq!(engine.get_client_for_sid(sid(200)), Some(other));
    assert!(!engine.has_client(client));
    assert!(engine.has_client(other));
    // Input for the surfaces of the client is a no-op from now on.
    for surface in [100, 101, 102] {
        assert_eq!(engine.on_keyboard_input(key, None, sid(surface)), None);
    }
    // Terminating it again finds neither the handler nor the client.
    let (handler, requests) = engine.terminate_client(client);
    assert!(handler.is_none());
    assert!(requests.is_empty());
}

#[test]
fn new_client_gets_its_display_object() {
    let mut engine = Engine::<dyn EventHandler>::new();
    engine.start(socket(3));
    let (registration, task) = engine.handle_new_client(socket(8));
    assert_eq!(registration.id, 2);
    assert_eq!(
        task,
        Task::Create {
            id: oid(1),
            object: ProtocolObject::Display(Display { client: registration.id }),
        }
    );
}

#[test]
fn focus_change_tells_every_pointer_and_keyboard_object_once() {
    let mut engine = Engine::<dyn EventHandler>::new();
    let a = engine.handle_new_client(socket(8)).0.id;
    let b = engine.handle_new_client(socket(9)).0.id;
    engine.handle_request(a, FacadeRequest::CreateSurface { oid: oid(5), sid: sid(100) });
    engine.handle_request(b, FacadeRequest::CreateSurface { oid: oid(5), sid: sid(200) });
    for pointer in [20, 21, 22] {
        engine.handle_request(a, FacadeRequest::AddPointerOid { pointer_oid: oid(pointer) });
    }
    for pointer in [30, 31] {
        engine.handle_request(b, FacadeRequest::AddPointerOid { pointer_oid: oid(pointer) });
    }
    engine.handle_request(a, FacadeRequest::AddKeyboardOid { keyboard_oid: oid(11) });
    for keyboard in [12, 13, 14, 15] {
        engine.handle_request(b, FacadeRequest::AddKeyboardOid { keyboard_oid: oid(keyboard) });
    }
    let deliveries = engine.on_pointer_focus_changed(sid(100), sid(200), Position::new(1, 2));
    let count = |client: u64, leave: bool| {
        deliveries
            .iter()
            .filter(|delivery| delivery.client == client)
            .flat_map(|delivery| delivery.events.iter())
            .filter(|event| match event {
                Event::PointerLeave { .. } => leave,
                Event::PointerEnter { .. } => !leave,
                _ => false,
            })
            .count()
    };
    assert_eq!((count(a, true), count(a, false)), (3, 0));
    assert_eq!((count(b, true), count(b, false)), (0, 2));
    let deliveries = engine.on_keyboard_focus_changed(sid(100), sid(200), None, None, sid(200));
    let count = |client: u64, leave: bool| {
        deliveries
            .iter()
            .filter(|delivery| delivery.client == client)
            .flat_map(|delivery| delivery.events.iter())
            .filter(|event| match event {
                Event::KeyboardLeave { .. } => leave,
                Event::KeyboardEnter { .. } => !leave,
                _ => false,
            })
            .count()
    };
    assert_eq!((count(a, true), count(a, false)), (1, 0));
    assert_eq!((count(b, true), count(b, false)), (0, 4));
}

#[test]
fn serials_of_a_client_form_one_sequence() {
    let mut engine = Engine::<dyn EventHandler>::new();
    let a = engine.handle_new_client(socket(8)).0.id;
    let b = engine.handle_new_client(socket(9)).0.id;
    engine.handle_request(a, FacadeRequest::AddPointerOid { pointer_oid: oid(20) });
    assert_eq!(engine.get_next_serial(a), Some(0));
    let press = Button { code: 272, value: 1, time: Milliseconds::new(10) };
    engine.handle_request(a, FacadeRequest::CreateSurface { oid: oid(5), sid: sid(100) });
    let delivery = engine.on_pointer_button(press, sid(100)).unwrap();
    assert_eq!(
        delivery.events,
        vec![Event::PointerButton {
            pointer: oid(20),
            serial: 1,
            time: 10,
            button: 272,
            state: ButtonState::Pressed
        }]
    );
    assert_eq!(engine.get_next_serial(a), Some(2));
    assert_eq!(engine.get_next_serial(b), Some(0));
    assert_eq!(engine.get_next_serial(77), None);
}

#[test]
fn request_of_unknown_client_is_passed_over() {
    let mut engine = Engine::<dyn EventHandler>::new();
    assert_eq!(engine.handle_request(7, FacadeRequest::Commit { sid: sid(1) }), None);
    assert!(engine.get_proxy(7).is_none());
}

#[test]
fn requests_reach_the_proxy_of_the_client() {
    let mut engine = Engine::<dyn EventHandler>::new();
    let client = engine.handle_new_client(socket(8)).0.id;
    assert_eq!(
        engine.handle_request(client, FacadeRequest::Commit { sid: sid(100) }),
        Some((vec![], vec![Request::CommitSurface { sid: sid(100) }]))
    );
    engine.handle_request(
        client,
        FacadeRequest::CreateMemoryView { buffer_oid: oid(7), view: Some(MemoryViewId { value: 3 }) },
    );
    engine.handle_request(client, FacadeRequest::CreateSurface { oid: oid(5), sid: sid(100) });
    assert_eq!(
        engine.handle_request(
            client,
            FacadeRequest::Attach { buffer_oid: oid(7), sid: sid(100), x: 0, y: 0 }
        ),
        Some((vec![], vec![Request::Attach { mvid: MemoryViewId { value: 3 }, sid: sid(100) }]))
    );
    engine.handle_request(client, FacadeRequest::SetFrame { sid: sid(100), frame_oid: oid(9) });
    let proxy = engine.get_proxy(client).unwrap();
    assert_eq!(proxy.get_id(), client);
    assert_eq!(proxy.find_sid(oid(5)), Some(sid(100)));
    let delivery = engine.on_surface_frame(sid(100), Milliseconds::new(40)).unwrap();
    assert_eq!(delivery.client, client);
    assert_eq!(
        delivery.events,
        vec![
            Event::CallbackDone { callback: oid(9), data: 40 },
            Event::DisplayDeleteId { display: oid(1), id: 9 },
            Event::BufferRelease { buffer: oid(7) },
        ]
    );
}

#[test]
fn client_that_connects_is_offered_the_fixed_interfaces_and_the_outputs() {
    let mut engine = Engine::<dyn EventHandler>::new();
    engine.on_display_created(output(1));
    let early = engine.handle_new_client(socket(8)).0.id;
    engine.on_display_created(output(2));
    let late = engine.handle_new_client(socket(9)).0.id;
    let order = [
        Interface::Shm,
        Interface::Compositor,
        Interface::Shell,
        Interface::XdgShellV6,
        Interface::DataDeviceManager,
        Interface::Seat,
        Interface::Subcompositor,
        Interface::WestonScreenshooter,
        Interface::LinuxDmabufV1,
        Interface::MesaDrm,
        Interface::Output(1),
        Interface::Output(2),
    ];
    for client in [early, late] {
        let globals = engine.get_proxy(client).unwrap().get_globals();
        assert_eq!(globals.len(), 12);
        for (i, interface) in order.iter().enumerate() {
            assert_eq!(
                globals[&(i as u32 + 1)],
                perceptia::global::Global { name: i as u32 + 1, interface: *interface }
            );
        }
    }
}

#[test]
fn hang_up_event_removes_the_handler_from_the_dispatcher() {
    let mut engine = Engine::<dyn EventHandler>::new();
    engine.start(socket(3));
    let registration = engine.handle_new_client(socket(8)).0;
    let (outcome, removed) =
        engine.receive(Waited::Events { ready: 1, id: registration.id, events: 0x10 });
    assert_eq!(outcome, WaitOutcome::Processed);
    assert_eq!(removed.map(|handler| handler.get_fd()), Some(8));
    let (handler, _) = engine.terminate_client(registration.id);
    assert!(handler.is_none());
    assert!(!engine.has_client(registration.id));
}

#[test]
fn receive_passes_readiness_to_the_handler() {
    let seen = Rc::new(RefCell::new(Vec::new()));
    let mut engine = Engine::<dyn EventHandler>::new();
    let registration = engine.start(Box::new(Socket { fd: 3, seen: seen.clone() }));
    let (outcome, removed) =
        engine.receive(Waited::Events { ready: 1, id: registration.id, events: 0x1 });
    assert_eq!(outcome, WaitOutcome::Processed);
    assert!(removed.is_none());
    assert_eq!(*seen.borrow(), vec![EventKind::read()]);
    let (outcome, _) = engine.receive(Waited::Events { ready: 0, id: 0, events: 0 });
    assert_eq!(outcome, WaitOutcome::Nothing);
    assert_eq!(seen.borrow().len(), 1);
}

#[test]
fn output_found_tells_the_mediator_of_the_device() {
    let mut engine = Engine::<dyn EventHandler>::new();
    let bundle =
        DrmBundle { fd: 5, path: "/dev/dri/card0".to_string(), crtc_id: 42, connector_id: 7 };
    engine.on_output_found(bundle);
    engine.on_display_created(output(1));
    engine.start(socket(3));
    let registration = engine.handle_new_client(socket(8)).0;
    assert!(engine.has_client(registration.id));
}

#[test]
fn routing_follows_the_owner_of_the_surface() {
    let mut engine = Engine::<dyn EventHandler>::new();
    engine.start(socket(3));
    engine.handle_new_client(socket(8)).0;
    // No surface is owned by anybody yet.
    assert_eq!(engine.on_surface_frame(sid(100), Milliseconds::new(1)), None);
    assert_eq!(
        engine.on_pointer_relative_motion(sid(100), Position::new(1, 1), Milliseconds::new(1)),
        None
    );
    let press = Button { code: 272, value: 1, time: Milliseconds::new(10) };
    assert_eq!(engine.on_pointer_button(press, sid(100)), None);
    assert_eq!(engine.on_pointer_axis(Position::new(0, 1), sid(100)), None);
    assert_eq!(
        engine.on_surface_reconfigured(
            sid(100),
            Size::new(1, 1),
            SurfaceState { maximized: false },
            sid(100)
        ),
        None
    );
    assert!(engine
        .on_pointer_focus_changed(sid(100), sid(101), Position::new(1, 1))
        .is_empty());
    assert!(engine
        .on_keyboard_focus_changed(sid(100), sid(101), None, None, sid(101))
        .is_empty());
    assert!(engine.route_focus(sid(100), sid(101), Position::new(1, 1)).is_empty());
    assert_eq!(engine.on_screenshot_done(), None);
}

#[test]
fn delivery_names_client_and_events() {
    let delivery = Delivery { client: 4, events: vec![Event::BufferRelease { buffer: oid(1) }] };
    assert_eq!(delivery.client, 4);
    assert_eq!(delivery.events.len(), 1);
    let call = FocusCall {
        client: 4,
        old_sid: sid(1),
        new_sid: SurfaceId::invalid(),
        position: Position::origin(),
    };
    assert_eq!(call.new_sid, SurfaceId::invalid());
}

#[test]
fn pointer_focus_handoff_across_clients() {
    // Clients A and B each own one visible surface.
    let mut engine = Engine::<dyn EventHandler>::new();
    let a = engine.handle_new_client(socket(8)).0.id;
    let b = engine.handle_new_client(socket(9)).0.id;
    engine.handle_request(a, FacadeRequest::CreateSurface { oid: oid(5), sid: sid(100) });
    engine.handle_request(b, FacadeRequest::CreateSurface { oid: oid(5), sid: sid(200) });
    engine.handle_request(a, FacadeRequest::AddPointerOid { pointer_oid: oid(20) });
    engine.handle_request(b, FacadeRequest::AddPointerOid { pointer_oid: oid(30) });

    // The pointer enters A's surface at (10, 20): an enter on A only.
    let deliveries =
        engine.on_pointer_focus_changed(SurfaceId::invalid(), sid(100), Position::new(10, 20));
    assert_eq!(
        deliveries,
        vec![Delivery {
            client: a,
            events: vec![Event::PointerEnter {
                pointer: oid(20),
                serial: 0,
                surface: oid(5),
                x: 10,
                y: 20
            }],
        }]
    );
    // The pointer moves to B's surface at (30, 40): a leave on A and an enter on B.
    assert_eq!(
        engine.route_focus(sid(100), sid(200), Position::new(30, 40)),
        vec![
            FocusCall {
                client: a,
                old_sid: sid(100),
                new_sid: SurfaceId::invalid(),
                position: Position::origin()
            },
            FocusCall {
                client: b,
                old_sid: SurfaceId::invalid(),
                new_sid: sid(200),
                position: Position::new(30, 40)
            },
        ]
    );
    let deliveries = engine.on_pointer_focus_changed(sid(100), sid(200), Position::new(30, 40));
    assert_eq!(
        deliveries,
        vec![
            Delivery {
                client: a,
                events: vec![Event::PointerLeave { pointer: oid(20), serial: 1, surface: oid(5) }],
            },
            Delivery {
                client: b,
                events: vec![Event::PointerEnter {
                    pointer: oid(30),
                    serial: 0,
                    surface: oid(5),
                    x: 30,
                    y: 40
                }],
            },
        ]
    );
}

#[test]
fn focus_change_within_one_client_is_told_once() {
    let mut engine = Engine::<dyn EventHandler>::new();
    let a = engine.handle_new_client(socket(8)).0.id;
    engine.handle_request(a, FacadeRequest::CreateSurface { oid: oid(5), sid: sid(100) });
    engine.handle_request(a, FacadeRequest::CreateSurface { oid: oid(6), sid: sid(101) });
    engine.handle_request(a, FacadeRequest::AddPointerOid { pointer_oid: oid(20) });
    engine.handle_request(a, FacadeRequest::AddKeyboardOid { keyboard_oid: oid(11) });
    let calls = engine.route_focus(sid(100), sid(101), Position::new(3, 4));
    assert_eq!(
        calls,
        vec![FocusCall {
            client: a,
            old_sid: sid(100),
            new_sid: sid(101),
            position: Position::new(3, 4)
        }]
    );
    let deliveries = engine.on_pointer_focus_changed(sid(100), sid(101), Position::new(3, 4));
    assert_eq!(
        deliveries,
        vec![Delivery {
            client: a,
            events: vec![
                Event::PointerLeave { pointer: oid(20), serial: 0, surface: oid(5) },
                Event::PointerEnter { pointer: oid(20), serial: 1, surface: oid(6), x: 3, y: 4 },
            ],
        }]
    );
    let deliveries = engine.on_keyboard_focus_changed(sid(100), sid(101), None, None, sid(101));
    assert_eq!(
        deliveries,
        vec![Delivery {
            client: a,
            events: vec![
                Event::KeyboardLeave { keyboard: oid(11), serial: 2, surface: oid(5) },
                Event::KeyboardEnter { keyboard: oid(11), serial: 3, surface: oid(6) },
            ],
        }]
    );
}

#[test]
fn keyboard_focus_handoff_across_clients_reconfigures_both() {
    let mut engine = Engine::<dyn EventHandler>::new();
    let a = engine.handle_new_client(socket(8)).0.id;
    let b = engine.handle_new_client(socket(9)).0.id;
    let reason = ShowReason { drawable: false, in_shell: true };
    engine.handle_request(a, FacadeRequest::CreateSurface { oid: oid(5), sid: sid(100) });
    engine.handle_request(
        a,
        FacadeRequest::Show {
            surface_oid: oid(5),
            shell_surface_oid: ShellSurfaceOid::ZxdgToplevelV6(oid(40), oid(41)),
            reason,
        },
    );
    engine.handle_request(a, FacadeRequest::AddKeyboardOid { keyboard_oid: oid(11) });
    engine.handle_request(b, FacadeRequest::CreateSurface { oid: oid(5), sid: sid(200) });
    engine.handle_request(b, FacadeRequest::AddKeyboardOid { keyboard_oid: oid(12) });
    let window =
        WindowInfo { desired_size: Size::new(64, 48), state_flags: SurfaceState { maximized: false } };
    let deliveries =
        engine.on_keyboard_focus_changed(sid(100), sid(200), Some(window), Some(window), sid(200));
    assert_eq!(
        deliveries,
        vec![
            Delivery {
                client: a,
                events: vec![
                    Event::KeyboardLeave { keyboard: oid(11), serial: 0, surface: oid(5) },
                    Event::XdgToplevelConfigure {
                        toplevel: oid(41),
                        width: 64,
                        height: 48,
                        states: ToplevelStates { maximized: false, activated: false }
                    },
                    Event::XdgSurfaceConfigure { surface: oid(40), serial: 1 },
                ],
            },
            Delivery {
                client: b,
                events: vec![Event::KeyboardEnter { keyboard: oid(12), serial: 0, surface: oid(5) }],
            },
        ]
    );
}

#[test]
fn input_goes_to_the_owner_of_the_focused_surface() {
    let mut engine = Engine::<dyn EventHandler>::new();
    let a = engine.handle_new_client(socket(8)).0.id;
    let b = engine.handle_new_client(socket(9)).0.id;
    engine.handle_request(a, FacadeRequest::CreateSurface { oid: oid(5), sid: sid(100) });
    engine.handle_request(b, FacadeRequest::CreateSurface { oid: oid(5), sid: sid(200) });
    engine.handle_request(a, FacadeRequest::AddKeyboardOid { keyboard_oid: oid(11) });
    engine.handle_request(b, FacadeRequest::AddPointerOid { pointer_oid: oid(30) });
    let key = Key { code: 30, value: 1, time: Milliseconds::new(7) };
    assert_eq!(
        engine.on_keyboard_input(key, None, sid(100)),
        Some(Delivery {
            client: a,
            events: vec![Event::KeyboardKey {
                keyboard: oid(11),
                serial: 0,
                time: 7,
                key: 30,
                state: 1
            }],
        })
    );
    assert_eq!(
        engine.on_keyboard_input(key, None, sid(200)),
        Some(Delivery { client: b, events: vec![] })
    );
    let press = Button { code: 272, value: 1, time: Milliseconds::new(10) };
    assert_eq!(
        engine.on_pointer_button(press, sid(200)),
        Some(Delivery {
            client: b,
            events: vec![Event::PointerButton {
                pointer: oid(30),
                serial: 0,
                time: 10,
                button: 272,
                state: ButtonState::Pressed
            }],
        })
    );
    assert_eq!(
        engine.on_pointer_relative_motion(sid(200), Position::new(5, 6), Milliseconds::new(11)),
        Some(Delivery {
            client: b,
            events: vec![Event::PointerMotion { pointer: oid(30), time: 11, x: 5, y: 6 }],
        })
    );
    assert_eq!(
        engine.on_pointer_axis(Position::new(0, 1), sid(200)),
        Some(Delivery { client: b, events: vec![] })
    );
    assert_eq!(
        engine.on_surface_reconfigured(
            sid(100),
            Size::new(1, 1),
            SurfaceState { maximized: false },
            sid(100)
        ),
        Some(Delivery { client: a, events: vec![] })
    );
}

#[test]
fn unused_types_are_nameable() {
    let _ = ButtonState::Pressed;
    let _ = ToplevelStates { maximized: false, activated: false };
    let _ = ShellSurfaceOid::Shell(oid(1));
    let _ = ShowReason { drawable: true, in_shell: false };
    let _ = WindowInfo { desired_size: Size::new(1, 1), state_flags: SurfaceState { maximized: false } };
}
