use perceptia::defs::{
    Area, Button, Key, KeyMods, MemoryPoolId, MemoryViewId, Milliseconds, ObjectId, Position,
    ShowReason, Size, SurfaceId, SurfaceState, WindowInfo,
};
use perceptia::global::{Global, Interface};
use perceptia::mediator::Mediator;
use perceptia::messages::{ButtonState, Event, Request, ShellSurfaceOid, ToplevelStates};
use perceptia::proxy::{Proxy, SurfaceInfo};

fn oid(value: u32) -> ObjectId {
    ObjectId::new(value)
}

fn sid(value: u64) -> SurfaceId {
    SurfaceId::new(value)
}

fn proxy_with_surface(surface_oid: u32, surface: u64) -> (Proxy, Mediator) {
    let mut mediator = Mediator::new();
    let mut proxy = Proxy::new(1);
    proxy.create_surface(&mut mediator, oid(surface_oid), sid(surface));
    (proxy, mediator)
}

#[test]
fn globals_are_named_from_one_in_registration_order() {
    let mut proxy = Proxy::new(4);
    proxy.register_global(Global::new(Interface::Shm));
    proxy.register_global(Global::new(Interface::Compositor));
    proxy.register_global(Global::new(Interface::Seat));
    let globals: Vec<(u32, Global)> =
        proxy.get_globals().iter().map(|(name, global)| (*name, *global)).collect();
    assert_eq!(
        globals,
        vec![
            (1, Global { name: 1, interface: Interface::Shm }),
            (2, Global { name: 2, interface: Interface::Compositor }),
            (3, Global { name: 3, interface: Interface::Seat }),
        ]
    );
    assert_eq!(proxy.get_global(2), Some(Global { name: 2, interface: Interface::Compositor }));
    assert_eq!(proxy.get_global(0), None);
    assert_eq!(proxy.get_global(4), None);
    assert!(proxy.can_register_global());
}

#[test]
fn globals_are_advertised_in_registration_order() {
    let mut proxy = Proxy::new(4);
    proxy.register_global(Global::new(Interface::Seat));
    proxy.register_global(Global::new(Interface::Shm));
    let events = proxy.advertise_globals(oid(2));
    assert_eq!(
        events,
        vec![
            Event::RegistryGlobal { registry: oid(2), name: 1, interface: Interface::Seat },
            Event::RegistryGlobal { registry: oid(2), name: 2, interface: Interface::Shm },
        ]
    );
    proxy.register_global(Global::new(Interface::Output(1)));
    let events = proxy.advertise_globals(oid(2));
    assert_eq!(events.len(), 3);
    assert_eq!(
        events[2],
        Event::RegistryGlobal { registry: oid(2), name: 3, interface: Interface::Output(1) }
    );
}

#[test]
fn registered_global_ignores_the_name_it_came_with() {
    let mut proxy = Proxy::new(4);
    proxy.register_global(Global { name: 77, interface: Interface::Shell });
    assert_eq!(proxy.get_globals()[&1], Global { name: 1, interface: Interface::Shell });
    assert_eq!(proxy.get_globals().len(), 1);
}

#[test]
fn memory_pools_are_remembered_and_destroyed() {
    let mut mediator = Mediator::new();
    let mut proxy = Proxy::new(1);
    assert_eq!(proxy.create_memory_pool(MemoryPoolId { value: 11 }), MemoryPoolId { value: 11 });
    proxy.create_memory_pool(MemoryPoolId { value: 12 });
    proxy.create_memory_pool(MemoryPoolId { value: 11 });
    assert_eq!(
        proxy.destroy_memory_pool(MemoryPoolId { value: 12 }),
        vec![Request::DestroyMemoryPool { mpid: MemoryPoolId { value: 12 } }]
    );
    assert_eq!(
        proxy.terminate(&mut mediator),
        vec![Request::DestroyMemoryPool { mpid: MemoryPoolId { value: 11 } }]
    );
}

#[test]
fn destroying_a_pool_that_is_not_owned_still_asks_the_coordinator() {
    let mut proxy = Proxy::new(1);
    assert_eq!(
        proxy.destroy_memory_pool(MemoryPoolId { value: 5 }),
        vec![Request::DestroyMemoryPool { mpid: MemoryPoolId { value: 5 } }]
    );
}

#[test]
fn create_surface_tells_the_mediator() {
    let mut mediator = Mediator::new();
    let mut proxy = Proxy::new(9);
    assert_eq!(proxy.create_surface(&mut mediator, oid(5), sid(100)), sid(100));
    assert_eq!(mediator.get_client_for_sid(sid(100)), Some(9));
    assert_eq!(proxy.find_sid(oid(5)), Some(sid(100)));
    assert_eq!(proxy.find_sid(oid(6)), None);
    assert_eq!(
        proxy.find_info(sid(100)),
        Some(SurfaceInfo {
            surface_oid: Some(oid(5)),
            buffer_oid: None,
            frame_oid: None,
            shell_surface_oid: None,
        })
    );
}

#[test]
fn surface_object_that_is_used_again_stands_for_the_new_surface() {
    let mut mediator = Mediator::new();
    let mut proxy = Proxy::new(9);
    proxy.create_surface(&mut mediator, oid(5), sid(100));
    proxy.create_surface(&mut mediator, oid(6), sid(101));
    proxy.create_surface(&mut mediator, oid(5), sid(102));
    assert_eq!(proxy.find_sid(oid(5)), Some(sid(102)));
    assert_eq!(
        proxy.terminate(&mut mediator),
        vec![Request::DestroySurface { sid: sid(102) }, Request::DestroySurface { sid: sid(101) }]
    );
}

#[test]
fn attach_of_unknown_buffer_changes_nothing() {
    let (mut proxy, _mediator) = proxy_with_surface(5, 100);
    let (events, requests) = proxy.attach(oid(7), sid(100), 0, 0);
    assert!(events.is_empty());
    assert!(requests.is_empty());
    assert_eq!(proxy.find_info(sid(100)).unwrap().buffer_oid, None);
}

#[test]
fn attach_binds_buffer_and_asks_coordinator() {
    let (mut proxy, _mediator) = proxy_with_surface(5, 100);
    assert_eq!(
        proxy.create_memory_view(oid(7), Some(MemoryViewId { value: 33 })),
        Some(MemoryViewId { value: 33 })
    );
    let (events, requests) = proxy.attach(oid(7), sid(100), 0, 0);
    assert!(events.is_empty());
    assert_eq!(requests, vec![Request::Attach { mvid: MemoryViewId { value: 33 }, sid: sid(100) }]);
    assert_eq!(proxy.find_info(sid(100)).unwrap().buffer_oid, Some(oid(7)));
}

#[test]
fn memory_view_that_was_not_made_is_not_remembered() {
    let (mut proxy, _mediator) = proxy_with_surface(5, 100);
    assert_eq!(proxy.create_memory_view(oid(7), None), None);
    let (events, requests) = proxy.attach(oid(7), sid(100), 0, 0);
    assert!(events.is_empty());
    assert!(requests.is_empty());
}

#[test]
fn second_attach_releases_the_earlier_buffer_once() {
    let (mut proxy, _mediator) = proxy_with_surface(5, 100);
    proxy.create_memory_view(oid(7), Some(MemoryViewId { value: 33 }));
    proxy.create_memory_view(oid(8), Some(MemoryViewId { value: 34 }));
    proxy.attach(oid(7), sid(100), 0, 0);
    let (events, requests) = proxy.attach(oid(8), sid(100), 0, 0);
    assert_eq!(events, vec![Event::BufferRelease { buffer: oid(7) }]);
    assert_eq!(requests, vec![Request::Attach { mvid: MemoryViewId { value: 34 }, sid: sid(100) }]);
    let events = proxy.on_surface_frame(sid(100), Milliseconds::new(5));
    assert_eq!(events, vec![Event::BufferRelease { buffer: oid(8) }]);
}

#[test]
fn buffer_released_by_frame_is_not_released_by_next_attach() {
    let (mut proxy, _mediator) = proxy_with_surface(5, 100);
    proxy.create_memory_view(oid(7), Some(MemoryViewId { value: 33 }));
    proxy.create_memory_view(oid(8), Some(MemoryViewId { value: 34 }));
    proxy.attach(oid(7), sid(100), 0, 0);
    let first = proxy.on_surface_frame(sid(100), Milliseconds::new(5));
    let second = proxy.on_surface_frame(sid(100), Milliseconds::new(6));
    let (events, _) = proxy.attach(oid(8), sid(100), 0, 0);
    assert_eq!(first, vec![Event::BufferRelease { buffer: oid(7) }]);
    assert!(second.is_empty());
    assert!(events.is_empty());
}

#[test]
fn single_client_life_cycle() {
    // One surface (object 5), a buffer attached, a frame callback (object 9), a commit.
    let (mut proxy, _mediator) = proxy_with_surface(5, 100);
    proxy.create_memory_pool(MemoryPoolId { value: 1 });
    proxy.create_memory_view(oid(7), Some(MemoryViewId { value: 33 }));
    proxy.attach(oid(7), sid(100), 0, 0);
    proxy.set_frame(sid(100), oid(9));
    assert_eq!(proxy.commit(sid(100)), vec![Request::CommitSurface { sid: sid(100) }]);
    let events = proxy.on_surface_frame(sid(100), Milliseconds::new(1234));
    assert_eq!(
        events,
        vec![
            Event::CallbackDone { callback: oid(9), data: 1234 },
            Event::DisplayDeleteId { display: oid(1), id: 9 },
            Event::BufferRelease { buffer: oid(7) },
        ]
    );
    let info = proxy.find_info(sid(100)).unwrap();
    assert_eq!(info.frame_oid, None);
    assert_eq!(info.buffer_oid, None);
    assert!(proxy.on_surface_frame(sid(100), Milliseconds::new(1250)).is_empty());
}

#[test]
fn frame_time_is_truncated_to_32_bits() {
    let (mut proxy, _mediator) = proxy_with_surface(5, 100);
    proxy.set_frame(sid(100), oid(9));
    let events = proxy.on_surface_frame(sid(100), Milliseconds::new(0x1_0000_0007));
    assert_eq!(events[0], Event::CallbackDone { callback: oid(9), data: 7 });
}

#[test]
fn second_frame_callback_does_not_replace_the_first() {
    let (mut proxy, _mediator) = proxy_with_surface(5, 100);
    proxy.set_frame(sid(100), oid(9));
    proxy.set_frame(sid(100), oid(10));
    assert_eq!(proxy.find_info(sid(100)).unwrap().frame_oid, Some(oid(9)));
    let events = proxy.on_surface_frame(sid(100), Milliseconds::new(1));
    assert_eq!(events[0], Event::CallbackDone { callback: oid(9), data: 1 });
    assert_eq!(events.len(), 2);
}

#[test]
fn frame_of_unknown_surface_tells_nothing() {
    let mut proxy = Proxy::new(1);
    assert!(proxy.on_surface_frame(sid(3), Milliseconds::new(1)).is_empty());
    assert_eq!(proxy.find_info(sid(3)), None);
}

#[test]
fn set_frame_on_unknown_surface_makes_its_info() {
    let mut proxy = Proxy::new(1);
    proxy.set_frame(sid(3), oid(9));
    assert_eq!(
        proxy.find_info(sid(3)),
        Some(SurfaceInfo {
            surface_oid: None,
            buffer_oid: None,
            frame_oid: Some(oid(9)),
            shell_surface_oid: None,
        })
    );
}

#[test]
fn regions_define_the_input_region() {
    let mut proxy = Proxy::new(1);
    let area = Area::new(Position::new(3, 4), Size::new(50, 60));
    proxy.define_region(oid(20), area);
    assert_eq!(
        proxy.set_input_region(sid(100), oid(20)),
        vec![
            Request::SetSurfaceOffset { sid: sid(100), offset: Position::new(3, 4) },
            Request::SetSurfaceRequestedSize { sid: sid(100), size: Size::new(50, 60) },
        ]
    );
    proxy.undefine_region(oid(20));
    assert!(proxy.set_input_region(sid(100), oid(20)).is_empty());
}

#[test]
fn show_relates_the_shell_surface() {
    let (mut proxy, _mediator) = proxy_with_surface(5, 100);
    let reason = ShowReason { drawable: false, in_shell: true };
    assert_eq!(
        proxy.show(oid(5), ShellSurfaceOid::Shell(oid(30)), reason),
        vec![Request::ShowSurface { sid: sid(100), reason }]
    );
    assert_eq!(
        proxy.find_info(sid(100)).unwrap().shell_surface_oid,
        Some(ShellSurfaceOid::Shell(oid(30)))
    );
    assert!(proxy.show(oid(6), ShellSurfaceOid::Shell(oid(31)), reason).is_empty());
    // A surface that is in a shell keeps its binding.
    proxy.show(oid(5), ShellSurfaceOid::ZxdgToplevelV6(oid(40), oid(41)), reason);
    assert_eq!(
        proxy.find_info(sid(100)).unwrap().shell_surface_oid,
        Some(ShellSurfaceOid::Shell(oid(30)))
    );
}

#[test]
fn simple_requests_are_forwarded() {
    let proxy = Proxy::new(1);
    assert_eq!(proxy.destroy_surface(sid(4)), vec![Request::DestroySurface { sid: sid(4) }]);
    assert_eq!(
        proxy.set_offset(sid(4), Position::new(1, 2)),
        vec![Request::SetSurfaceOffset { sid: sid(4), offset: Position::new(1, 2) }]
    );
    assert_eq!(
        proxy.set_requested_size(sid(4), Size::new(8, 9)),
        vec![Request::SetSurfaceRequestedSize { sid: sid(4), size: Size::new(8, 9) }]
    );
    assert_eq!(
        proxy.set_relative_position(sid(4), Position::new(-1, 2)),
        vec![Request::SetSurfaceRelativePosition { sid: sid(4), offset: Position::new(-1, 2) }]
    );
    assert_eq!(
        proxy.relate(sid(4), sid(5)),
        vec![Request::RelateSurfaces { sid: sid(4), parent_sid: sid(5) }]
    );
    assert_eq!(proxy.unrelate(sid(4)), vec![Request::UnrelateSurface { sid: sid(4) }]);
}

#[test]
fn cursor_is_set_for_known_surface_objects_only() {
    let (proxy, _mediator) = proxy_with_surface(5, 100);
    assert_eq!(
        proxy.set_as_cursor(oid(5), 2, 3),
        vec![
            Request::SetSurfaceOffset { sid: sid(100), offset: Position::new(2, 3) },
            Request::SetSurfaceAsCursor { sid: sid(100) },
        ]
    );
    assert!(proxy.set_as_cursor(oid(6), 2, 3).is_empty());
}

#[test]
fn keyboard_input_goes_to_every_keyboard_object() {
    let mut proxy = Proxy::new(1);
    proxy.add_keyboard_oid(oid(11));
    proxy.add_keyboard_oid(oid(12));
    proxy.add_keyboard_oid(oid(11));
    let key = Key { code: 30, value: 1, time: Milliseconds::new(500) };
    let events = proxy.on_keyboard_input(key, None);
    assert_eq!(
        events,
        vec![
            Event::KeyboardKey { keyboard: oid(11), serial: 0, time: 500, key: 30, state: 1 },
            Event::KeyboardKey { keyboard: oid(12), serial: 1, time: 500, key: 30, state: 1 },
        ]
    );
}

#[test]
fn keyboard_input_with_changed_modifiers_sends_them_too() {
    let mut proxy = Proxy::new(1);
    proxy.add_keyboard_oid(oid(11));
    proxy.add_keyboard_oid(oid(12));
    let key = Key { code: 42, value: 0, time: Milliseconds::new(9) };
    let mods = KeyMods { depressed: 1, latched: 2, locked: 3, effective: 4 };
    let events = proxy.on_keyboard_input(key, Some(mods));
    assert_eq!(
        events,
        vec![
            Event::KeyboardKey { keyboard: oid(11), serial: 0, time: 9, key: 42, state: 0 },
            Event::KeyboardModifiers {
                keyboard: oid(11),
                serial: 1,
                depressed: 1,
                latched: 2,
                locked: 3,
                group: 4
            },
            Event::KeyboardKey { keyboard: oid(12), serial: 2, time: 9, key: 42, state: 0 },
            Event::KeyboardModifiers {
                keyboard: oid(12),
                serial: 3,
                depressed: 1,
                latched: 2,
                locked: 3,
                group: 4
            },
        ]
    );
    // The next serial goes on from there.
    let events = proxy.on_keyboard_input(key, None);
    assert_eq!(
        events[0],
        Event::KeyboardKey { keyboard: oid(11), serial: 4, time: 9, key: 42, state: 0 }
    );
}

#[test]
fn keyboard_input_without_keyboard_objects_tells_nothing() {
    let mut proxy = Proxy::new(1);
    let key = Key { code: 42, value: 0, time: Milliseconds::new(9) };
    assert!(proxy.on_keyboard_input(key, None).is_empty());
}

#[test]
fn removed_keyboard_object_is_told_no_more() {
    let mut proxy = Proxy::new(1);
    proxy.add_keyboard_oid(oid(11));
    proxy.add_keyboard_oid(oid(12));
    proxy.remove_keyboard_oid(oid(11));
    proxy.remove_keyboard_oid(oid(13));
    let key = Key { code: 1, value: 1, time: Milliseconds::new(2) };
    assert_eq!(
        proxy.on_keyboard_input(key, None),
        vec![Event::KeyboardKey { keyboard: oid(12), serial: 0, time: 2, key: 1, state: 1 }]
    );
}

#[test]
fn pointer_focus_change_sends_leave_then_enter() {
    let mut mediator = Mediator::new();
    let mut proxy = Proxy::new(1);
    proxy.create_surface(&mut mediator, oid(5), sid(100));
    proxy.create_surface(&mut mediator, oid(6), sid(101));
    proxy.add_pointer_oid(oid(20));
    proxy.add_pointer_oid(oid(21));
    let events = proxy.on_pointer_focus_changed(sid(100), sid(101), Position::new(30, 40));
    assert_eq!(
        events,
        vec![
            Event::PointerLeave { pointer: oid(20), serial: 0, surface: oid(5) },
            Event::PointerLeave { pointer: oid(21), serial: 1, surface: oid(5) },
            Event::PointerEnter { pointer: oid(20), serial: 2, surface: oid(6), x: 30, y: 40 },
            Event::PointerEnter { pointer: oid(21), serial: 3, surface: oid(6), x: 30, y: 40 },
        ]
    );
}

#[test]
fn pointer_focus_on_invalid_or_unknown_surfaces_tells_nothing() {
    let (mut proxy, _mediator) = proxy_with_surface(5, 100);
    proxy.add_pointer_oid(oid(20));
    assert!(proxy
        .on_pointer_focus_changed(SurfaceId::invalid(), sid(55), Position::new(1, 1))
        .is_empty());
    let events =
        proxy.on_pointer_focus_changed(SurfaceId::invalid(), sid(100), Position::new(10, 20));
    assert_eq!(
        events,
        vec![Event::PointerEnter { pointer: oid(20), serial: 0, surface: oid(5), x: 10, y: 20 }]
    );
    let events =
        proxy.on_pointer_focus_changed(sid(100), SurfaceId::invalid(), Position::new(0, 0));
    assert_eq!(events, vec![Event::PointerLeave { pointer: oid(20), serial: 1, surface: oid(5) }]);
}

#[test]
fn pointer_motion_goes_to_every_pointer_object() {
    let mut proxy = Proxy::new(1);
    proxy.add_pointer_oid(oid(20));
    proxy.add_pointer_oid(oid(21));
    proxy.remove_pointer_oid(oid(20));
    let events =
        proxy.on_pointer_relative_motion(sid(100), Position::new(-3, 8), Milliseconds::new(77));
    assert_eq!(events, vec![Event::PointerMotion { pointer: oid(21), time: 77, x: -3, y: 8 }]);
}

#[test]
fn pointer_button_state_comes_from_the_value() {
    let mut proxy = Proxy::new(1);
    proxy.add_pointer_oid(oid(20));
    proxy.add_pointer_oid(oid(21));
    let press = Button { code: 272, value: 1, time: Milliseconds::new(10) };
    let release = Button { code: 272, value: 0, time: Milliseconds::new(11) };
    assert_eq!(
        proxy.on_pointer_button(press),
        vec![
            Event::PointerButton {
                pointer: oid(20),
                serial: 0,
                time: 10,
                button: 272,
                state: ButtonState::Pressed
            },
            Event::PointerButton {
                pointer: oid(21),
                serial: 0,
                time: 10,
                button: 272,
                state: ButtonState::Pressed
            },
        ]
    );
    assert_eq!(
        proxy.on_pointer_button(release),
        vec![
            Event::PointerButton {
                pointer: oid(20),
                serial: 1,
                time: 11,
                button: 272,
                state: ButtonState::Released
            },
            Event::PointerButton {
                pointer: oid(21),
                serial: 1,
                time: 11,
                button: 272,
                state: ButtonState::Released
            },
        ]
    );
}

#[test]
fn pointer_button_takes_a_serial_even_without_pointer_objects() {
    let mut proxy = Proxy::new(1);
    let press = Button { code: 272, value: 5, time: Milliseconds::new(10) };
    assert!(proxy.on_pointer_button(press).is_empty());
    proxy.add_pointer_oid(oid(20));
    assert_eq!(
        proxy.on_pointer_button(press),
        vec![Event::PointerButton {
            pointer: oid(20),
            serial: 1,
            time: 10,
            button: 272,
            state: ButtonState::Pressed
        }]
    );
}

#[test]
fn pointer_axis_and_output_found_tell_nothing() {
    let proxy = Proxy::new(1);
    assert!(proxy.on_pointer_axis(Position::new(0, 1)).is_empty());
    assert!(proxy.on_output_found().is_empty());
}

#[test]
fn classic_shell_surface_is_configured_with_its_size() {
    let (mut proxy, _mediator) = proxy_with_surface(5, 100);
    proxy.show(
        oid(5),
        ShellSurfaceOid::Shell(oid(30)),
        ShowReason { drawable: false, in_shell: true },
    );
    let events = proxy.on_surface_reconfigured(
        sid(100),
        Size::new(640, 480),
        SurfaceState { maximized: true },
        sid(100),
    );
    assert_eq!(
        events,
        vec![Event::ShellSurfaceConfigure { shell_surface: oid(30), width: 640, height: 480 }]
    );
}

#[test]
fn xdg_toplevel_activation() {
    // Surface X is an xdg toplevel and receives keyboard focus; then loses it to Y.
    let (mut proxy, _mediator) = proxy_with_surface(5, 100);
    proxy.show(
        oid(5),
        ShellSurfaceOid::ZxdgToplevelV6(oid(40), oid(41)),
        ShowReason { drawable: false, in_shell: true },
    );
    let size = Size::new(800, 600);
    let events =
        proxy.on_surface_reconfigured(sid(100), size, SurfaceState { maximized: false }, sid(100));
    assert_eq!(
        events,
        vec![
            Event::XdgToplevelConfigure {
                toplevel: oid(41),
                width: 800,
                height: 600,
                states: ToplevelStates { maximized: false, activated: true }
            },
            Event::XdgSurfaceConfigure { surface: oid(40), serial: 0 },
        ]
    );
    if let Event::XdgToplevelConfigure { states, .. } = events[0] {
        assert_eq!(states.to_list(), vec![perceptia::messages::ToplevelState::Activated]);
    } else {
        panic!("not a toplevel configure");
    }
    let events =
        proxy.on_surface_reconfigured(sid(100), size, SurfaceState { maximized: false }, sid(200));
    assert_eq!(
        events,
        vec![
            Event::XdgToplevelConfigure {
                toplevel: oid(41),
                width: 800,
                height: 600,
                states: ToplevelStates { maximized: false, activated: false }
            },
            Event::XdgSurfaceConfigure { surface: oid(40), serial: 1 },
        ]
    );
    if let Event::XdgToplevelConfigure { states, .. } = events[0] {
        assert!(states.to_list().is_empty());
    } else {
        panic!("not a toplevel configure");
    }
}

#[test]
fn maximized_comes_before_activated() {
    let states = ToplevelStates { maximized: true, activated: true };
    assert_eq!(
        states.to_list(),
        vec![
            perceptia::messages::ToplevelState::Maximized,
            perceptia::messages::ToplevelState::Activated
        ]
    );
    let states = ToplevelStates { maximized: true, activated: false };
    assert_eq!(states.to_list(), vec![perceptia::messages::ToplevelState::Maximized]);
}

#[test]
fn reconfiguration_of_surface_outside_any_shell_tells_nothing() {
    let (mut proxy, _mediator) = proxy_with_surface(5, 100);
    let flags = SurfaceState { maximized: false };
    assert!(proxy.on_surface_reconfigured(sid(100), Size::new(1, 1), flags, sid(100)).is_empty());
    assert!(proxy.on_surface_reconfigured(sid(7), Size::new(1, 1), flags, sid(100)).is_empty());
}

#[test]
fn keyboard_focus_change_sends_leave_enter_and_reconfigures() {
    let mut mediator = Mediator::new();
    let mut proxy = Proxy::new(1);
    proxy.create_surface(&mut mediator, oid(5), sid(100));
    proxy.create_surface(&mut mediator, oid(6), sid(101));
    let reason = ShowReason { drawable: false, in_shell: true };
    proxy.show(oid(5), ShellSurfaceOid::ZxdgToplevelV6(oid(40), oid(41)), reason);
    proxy.show(oid(6), ShellSurfaceOid::Shell(oid(30)), reason);
    proxy.add_keyboard_oid(oid(11));
    let old_window = WindowInfo {
        desired_size: Size::new(100, 200),
        state_flags: SurfaceState { maximized: true },
    };
    let new_window = WindowInfo {
        desired_size: Size::new(300, 400),
        state_flags: SurfaceState { maximized: false },
    };
    let events = proxy.on_keyboard_focus_changed(
        sid(100),
        sid(101),
        Some(old_window),
        Some(new_window),
        sid(101),
    );
    assert_eq!(
        events,
        vec![
            Event::KeyboardLeave { keyboard: oid(11), serial: 0, surface: oid(5) },
            Event::XdgToplevelConfigure {
                toplevel: oid(41),
                width: 100,
                height: 200,
                states: ToplevelStates { maximized: true, activated: false }
            },
            Event::XdgSurfaceConfigure { surface: oid(40), serial: 1 },
            Event::KeyboardEnter { keyboard: oid(11), serial: 2, surface: oid(6) },
            Event::ShellSurfaceConfigure { shell_surface: oid(30), width: 300, height: 400 },
        ]
    );
}

#[test]
fn surface_is_reconfigured_once_however_many_keyboard_objects_there_are() {
    let window =
        WindowInfo { desired_size: Size::new(10, 20), state_flags: SurfaceState { maximized: false } };
    for keyboards in 0..4u32 {
        let (mut proxy, _mediator) = proxy_with_surface(5, 100);
        proxy.show(
            oid(5),
            ShellSurfaceOid::Shell(oid(30)),
            ShowReason { drawable: false, in_shell: true },
        );
        for keyboard in 0..keyboards {
            proxy.add_keyboard_oid(oid(11 + keyboard));
        }
        let events = proxy.on_keyboard_focus_changed(
            SurfaceId::invalid(),
            sid(100),
            None,
            Some(window),
            sid(100),
        );
        assert_eq!(events.len(), keyboards as usize + 1);
        for keyboard in 0..keyboards {
            assert_eq!(
                events[keyboard as usize],
                Event::KeyboardEnter { keyboard: oid(11 + keyboard), serial: keyboard, surface: oid(5) }
            );
        }
        assert_eq!(
            events[keyboards as usize],
            Event::ShellSurfaceConfigure { shell_surface: oid(30), width: 10, height: 20 }
        );
    }
}

#[test]
fn reconfiguration_follows_all_leaves_and_takes_the_next_serial() {
    let (mut proxy, _mediator) = proxy_with_surface(5, 100);
    proxy.show(
        oid(5),
        ShellSurfaceOid::ZxdgToplevelV6(oid(40), oid(41)),
        ShowReason { drawable: false, in_shell: true },
    );
    proxy.add_keyboard_oid(oid(11));
    proxy.add_keyboard_oid(oid(12));
    let window =
        WindowInfo { desired_size: Size::new(10, 20), state_flags: SurfaceState { maximized: false } };
    let events = proxy.on_keyboard_focus_changed(
        sid(100),
        SurfaceId::invalid(),
        Some(window),
        None,
        sid(200),
    );
    assert_eq!(
        events,
        vec![
            Event::KeyboardLeave { keyboard: oid(11), serial: 0, surface: oid(5) },
            Event::KeyboardLeave { keyboard: oid(12), serial: 1, surface: oid(5) },
            Event::XdgToplevelConfigure {
                toplevel: oid(41),
                width: 10,
                height: 20,
                states: ToplevelStates { maximized: false, activated: false }
            },
            Event::XdgSurfaceConfigure { surface: oid(40), serial: 2 },
        ]
    );
    assert_eq!(proxy.get_next_serial(), 3);
    assert_eq!(proxy.get_next_serial(), 4);
}

#[test]
fn keyboard_focus_change_without_window_info_sends_no_configure() {
    let (mut proxy, _mediator) = proxy_with_surface(5, 100);
    proxy.add_keyboard_oid(oid(11));
    proxy.add_keyboard_oid(oid(12));
    let events =
        proxy.on_keyboard_focus_changed(SurfaceId::invalid(), sid(100), None, None, sid(100));
    assert_eq!(
        events,
        vec![
            Event::KeyboardEnter { keyboard: oid(11), serial: 0, surface: oid(5) },
            Event::KeyboardEnter { keyboard: oid(12), serial: 1, surface: oid(5) },
        ]
    );
}

#[test]
fn terminate_destroys_pools_then_surfaces_and_clears_the_mediator() {
    let mut mediator = Mediator::new();
    let mut other = Proxy::new(2);
    other.create_surface(&mut mediator, oid(5), sid(200));
    let mut proxy = Proxy::new(1);
    proxy.create_memory_pool(MemoryPoolId { value: 1 });
    proxy.create_surface(&mut mediator, oid(5), sid(100));
    proxy.create_surface(&mut mediator, oid(6), sid(101));
    proxy.create_surface(&mut mediator, oid(7), sid(102));
    let requests = proxy.terminate(&mut mediator);
    assert_eq!(
        requests,
        vec![
            Request::DestroyMemoryPool { mpid: MemoryPoolId { value: 1 } },
            Request::DestroySurface { sid: sid(100) },
            Request::DestroySurface { sid: sid(101) },
            Request::DestroySurface { sid: sid(102) },
        ]
    );
    assert_eq!(mediator.get_client_for_sid(sid(100)), None);
    assert_eq!(mediator.get_client_for_sid(sid(101)), None);
    assert_eq!(mediator.get_client_for_sid(sid(102)), None);
    assert_eq!(mediator.get_client_for_sid(sid(200)), Some(2));
}

#[test]
fn proxy_knows_its_client() {
    assert_eq!(Proxy::new(17).get_id(), 17);
}
