//! What holds of the protocol state of a client whatever the client does.

use crate::defs::{Milliseconds, ObjectId, Position, SurfaceId, WindowInfo};
use crate::global::Global;
use crate::messages::Event;
use crate::proxy::{
    ProxyView, after_surface_frame, global_events, keyboard_enter_events, keyboard_focus_events,
    keyboard_focus_side, keyboard_leave_events, pointer_enter_events, pointer_focus_events,
    pointer_leave_events,
    reconfigure_events, release_of_attached, surface_frame_events, with_buffer_oid, with_frame_oid,
};
use vstd::prelude::*;

verus! {

/// How many of `events` are of the kind that `wanted` tells.
pub open spec fn count_of(events: Seq<Event>, wanted: spec_fn(Event) -> bool) -> nat
    decreases events.len(),
{
    if events.len() == 0 {
        0
    } else {
        count_of(events.drop_last(), wanted) + if wanted(events.last()) {
            1nat
        } else {
            0nat
        }
    }
}

/// Tells a `wl_pointer.leave`.
pub open spec fn is_pointer_leave() -> spec_fn(Event) -> bool {
    |event: Event| event is PointerLeave
}

/// Tells a `wl_pointer.enter`.
pub open spec fn is_pointer_enter() -> spec_fn(Event) -> bool {
    |event: Event| event is PointerEnter
}

/// Tells a `wl_keyboard.leave`.
pub open spec fn is_keyboard_leave() -> spec_fn(Event) -> bool {
    |event: Event| event is KeyboardLeave
}

/// Tells a `wl_keyboard.enter`.
pub open spec fn is_keyboard_enter() -> spec_fn(Event) -> bool {
    |event: Event| event is KeyboardEnter
}

/// Tells the release of the buffer `buffer`.
pub open spec fn is_release_of(buffer: ObjectId) -> spec_fn(Event) -> bool {
    |event: Event| event == (Event::BufferRelease { buffer })
}

/// Tells a `wl_callback.done`.
pub open spec fn is_callback_done() -> spec_fn(Event) -> bool {
    |event: Event| event is CallbackDone
}

/// Counting in two lists one after the other is counting in each.
pub proof fn lemma_count_concat(a: Seq<Event>, b: Seq<Event>, wanted: spec_fn(Event) -> bool)
    ensures
        count_of(a + b, wanted) == count_of(a, wanted) + count_of(b, wanted),
    decreases b.len(),
{
    if b.len() == 0 {
        assert(a + b =~= a);
    } else {
        lemma_count_concat(a, b.drop_last(), wanted);
        assert((a + b).drop_last() =~= a + b.drop_last());
    }
}

/// Where every event is of the kind, all are counted; where none is, none.
pub proof fn lemma_count_uniform(events: Seq<Event>, wanted: spec_fn(Event) -> bool)
    ensures
        (forall|i: int| 0 <= i < events.len() ==> wanted(#[trigger] events[i])) ==> count_of(events, wanted)
            == events.len(),
        (forall|i: int| 0 <= i < events.len() ==> !wanted(#[trigger] events[i])) ==> count_of(events, wanted)
            == 0,
    decreases events.len(),
{
    if events.len() > 0 {
        lemma_count_uniform(events.drop_last(), wanted);
        assert(forall|i: int|
            0 <= i < events.drop_last().len() ==> events.drop_last()[i] == events[i]);
    }
}

/// The globals are advertised in the order in which they were registered: to
/// register a global adds one advertisement, after those of the globals that were
/// registered before, which stay as they are.
pub proof fn lemma_advertised_in_order(globals: Seq<Global>, global: Global, registry: ObjectId)
    ensures
        global_events(globals.push(global), registry) == global_events(globals, registry).push(
            Event::RegistryGlobal { registry, name: global.name, interface: global.interface },
        ),
        forall|i: int|
            0 <= i < globals.len() ==> #[trigger] global_events(globals.push(global), registry)[i] == (
            Event::RegistryGlobal { registry, name: globals[i].name, interface: globals[i].interface }),
{
    assert(global_events(globals.push(global), registry) =~= global_events(globals, registry).push(
        Event::RegistryGlobal { registry, name: global.name, interface: global.interface },
    ));
}

/// A surface waits for at most one frame callback. After a frame the surface
/// waits for none and has no buffer attached, so that a second frame tells the
/// client nothing.
pub proof fn lemma_frame_callback_once(
    view: ProxyView,
    sid: SurfaceId,
    first: Milliseconds,
    second: Milliseconds,
)
    ensures
        ({
            let after = ProxyView { infos: after_surface_frame(view, sid), ..view };
            &&& after.info_or_blank(sid).frame_oid is None
            &&& after.info_or_blank(sid).buffer_oid is None
            &&& surface_frame_events(after, sid, second) == Seq::<Event>::empty()
            &&& count_of(surface_frame_events(view, sid, first), is_callback_done()) == (if view.info_or_blank(
                sid,
            ).frame_oid is Some {
                1nat
            } else {
                0nat
            })
        }),
{
    let after = ProxyView { infos: after_surface_frame(view, sid), ..view };
    assert(surface_frame_events(after, sid, second) =~= Seq::<Event>::empty());
    let events = surface_frame_events(view, sid, first);
    reveal_with_fuel(count_of, 4);
    if view.infos.contains_key(sid.value) {
        let info = view.infos[sid.value];
        if info.frame_oid is Some && info.buffer_oid is Some {
            assert(events.len() == 3);
            assert(events.drop_last().len() == 2);
            assert(events.drop_last().drop_last().len() == 1);
            assert(events.drop_last().drop_last().drop_last().len() == 0);
        } else if info.frame_oid is Some {
            assert(events.len() == 2);
            assert(events.drop_last().len() == 1);
            assert(events.drop_last().drop_last().len() == 0);
        } else if info.buffer_oid is Some {
            assert(events.len() == 1);
            assert(events.drop_last().len() == 0);
        } else {
            assert(events.len() == 0);
        }
    }
}

/// A frame callback that is asked for while the surface waits for one does not
/// replace the one that the surface waits for.
pub proof fn lemma_frame_callback_kept(view: ProxyView, sid: SurfaceId, frame_oid: ObjectId)
    requires
        view.info_or_blank(sid).frame_oid is Some,
    ensures
        (ProxyView { infos: with_frame_oid(view, sid, frame_oid), ..view }).info_or_blank(sid).frame_oid
            == view.info_or_blank(sid).frame_oid,
{
}

/// The state of a proxy after `frames` frames of the surface `sid`.
pub open spec fn after_frames(view: ProxyView, sid: SurfaceId, frames: nat) -> ProxyView
    decreases frames,
{
    if frames == 0 {
        view
    } else {
        let before = after_frames(view, sid, (frames - 1) as nat);
        ProxyView { infos: after_surface_frame(before, sid), ..before }
    }
}

/// What the client is told in `frames` frames of the surface `sid`.
pub open spec fn frames_events(
    view: ProxyView,
    sid: SurfaceId,
    frames: nat,
    time: Milliseconds,
) -> Seq<Event>
    decreases frames,
{
    if frames == 0 {
        Seq::empty()
    } else {
        frames_events(view, sid, (frames - 1) as nat, time) + surface_frame_events(
            after_frames(view, sid, (frames - 1) as nat),
            sid,
            time,
        )
    }
}

/// Frames of a surface that has no buffer attached release no buffer, and leave
/// the surface without one.
proof fn lemma_frames_without_buffer(
    view: ProxyView,
    sid: SurfaceId,
    frames: nat,
    time: Milliseconds,
    buffer: ObjectId,
)
    requires
        view.info_or_blank(sid).buffer_oid is None,
    ensures
        after_frames(view, sid, frames).info_or_blank(sid).buffer_oid is None,
        count_of(frames_events(view, sid, frames, time), is_release_of(buffer)) == 0,
    decreases frames,
{
    if frames > 0 {
        lemma_frames_without_buffer(view, sid, (frames - 1) as nat, time, buffer);
        let before = after_frames(view, sid, (frames - 1) as nat);
        let events = surface_frame_events(before, sid, time);
        lemma_count_concat(frames_events(view, sid, (frames - 1) as nat, time), events, is_release_of(buffer));
        lemma_count_uniform(events, is_release_of(buffer));
    }
}

/// A buffer is released exactly once between the attach that made it the buffer
/// of a surface and the next attach to the surface: by the first frame in between,
/// or else by that next attach.
pub proof fn lemma_buffer_released_once(
    view: ProxyView,
    sid: SurfaceId,
    buffer: ObjectId,
    frames: nat,
    time: Milliseconds,
)
    requires
        view.info_or_blank(sid).buffer_oid == Some(buffer),
    ensures
        count_of(
            frames_events(view, sid, frames, time) + release_of_attached(
                after_frames(view, sid, frames),
                sid,
            ),
            is_release_of(buffer),
        ) == 1,
    decreases frames,
{
    let wanted = is_release_of(buffer);
    let told = frames_events(view, sid, frames, time);
    let last = release_of_attached(after_frames(view, sid, frames), sid);
    lemma_count_concat(told, last, wanted);
    if frames == 0 {
        assert(last =~= seq![Event::BufferRelease { buffer }]);
        assert(last.drop_last() =~= Seq::<Event>::empty());
        reveal_with_fuel(count_of, 2);
    } else {
        lemma_first_frame_releases(view, sid, buffer, time);
        let first = ProxyView { infos: after_surface_frame(view, sid), ..view };
        lemma_frames_shift(view, sid, frames, time);
        lemma_frames_without_buffer(first, sid, (frames - 1) as nat, time, buffer);
        lemma_count_concat(
            surface_frame_events(view, sid, time),
            frames_events(first, sid, (frames - 1) as nat, time),
            wanted,
        );
        lemma_count_uniform(last, wanted);
    }
}

/// The first frame of a surface that has a buffer attached releases the buffer,
/// once, and leaves the surface without one.
proof fn lemma_first_frame_releases(
    view: ProxyView,
    sid: SurfaceId,
    buffer: ObjectId,
    time: Milliseconds,
)
    requires
        view.info_or_blank(sid).buffer_oid == Some(buffer),
    ensures
        count_of(surface_frame_events(view, sid, time), is_release_of(buffer)) == 1,
        (ProxyView { infos: after_surface_frame(view, sid), ..view }).info_or_blank(sid).buffer_oid is None,
{
    let info = view.infos[sid.value];
    let callback = match info.frame_oid {
        Some(callback) => seq![
            Event::CallbackDone { callback, data: time.value as u32 },
            Event::DisplayDeleteId { display: ObjectId { value: 1 }, id: callback.value },
        ],
        None => Seq::empty(),
    };
    let release = seq![Event::BufferRelease { buffer }];
    assert(surface_frame_events(view, sid, time) =~= callback + release);
    lemma_count_concat(callback, release, is_release_of(buffer));
    lemma_count_uniform(callback, is_release_of(buffer));
    lemma_count_uniform(release, is_release_of(buffer));
}

/// Some frames are a first frame and then the others.
proof fn lemma_frames_shift(view: ProxyView, sid: SurfaceId, frames: nat, time: Milliseconds)
    requires
        frames > 0,
    ensures
        ({
            let first = ProxyView { infos: after_surface_frame(view, sid), ..view };
            &&& after_frames(view, sid, frames) == after_frames(first, sid, (frames - 1) as nat)
            &&& frames_events(view, sid, frames, time) == surface_frame_events(view, sid, time)
                + frames_events(first, sid, (frames - 1) as nat, time)
        }),
    decreases frames,
{
    let first = ProxyView { infos: after_surface_frame(view, sid), ..view };
    if frames == 1 {
        reveal_with_fuel(after_frames, 2);
        reveal_with_fuel(frames_events, 2);
        assert(frames_events(view, sid, 1, time) =~= surface_frame_events(view, sid, time) + frames_events(
            first,
            sid,
            0,
            time,
        ));
    } else {
        lemma_frames_shift(view, sid, (frames - 1) as nat, time);
        assert(frames_events(view, sid, frames, time) =~= surface_frame_events(view, sid, time)
            + frames_events(first, sid, (frames - 1) as nat, time));
    }
}

/// A change of pointer focus tells the client of as many leaves as it has pointer
/// objects, if the old surface is one of its surfaces, and of none otherwise; and
/// likewise of enters, for the new surface.
pub proof fn lemma_pointer_focus_symmetry(
    view: ProxyView,
    old_sid: SurfaceId,
    new_sid: SurfaceId,
    position: Position,
)
    ensures
        count_of(pointer_focus_events(view, old_sid, new_sid, position), is_pointer_leave()) == (if view.focus_target(
            old_sid,
        ) is Some {
            view.pointers.len()
        } else {
            0
        }),
        count_of(pointer_focus_events(view, old_sid, new_sid, position), is_pointer_enter()) == (if view.focus_target(
            new_sid,
        ) is Some {
            view.pointers.len()
        } else {
            0
        }),
{
    let leaves = match view.focus_target(old_sid) {
        Some(surface) => pointer_leave_events(view.pointers, view.serial, surface),
        None => Seq::empty(),
    };
    let enters = match view.focus_target(new_sid) {
        Some(surface) => pointer_enter_events(
            view.pointers,
            crate::proxy::serial_after(view.serial, leaves.len() as int),
            surface,
            position,
        ),
        None => Seq::empty(),
    };
    lemma_count_concat(leaves, enters, is_pointer_leave());
    lemma_count_concat(leaves, enters, is_pointer_enter());
    lemma_count_uniform(leaves, is_pointer_leave());
    lemma_count_uniform(leaves, is_pointer_enter());
    lemma_count_uniform(enters, is_pointer_leave());
    lemma_count_uniform(enters, is_pointer_enter());
}

/// What a client is told when its surface gains or loses the keyboard focus holds
/// one enter or one leave for each keyboard object, if the client can be told of
/// the surface, and none otherwise.
proof fn lemma_keyboard_side_counts(
    view: ProxyView,
    serial: u32,
    sid: SurfaceId,
    entering: bool,
    window: Option<WindowInfo>,
    focused: SurfaceId,
)
    ensures
        count_of(keyboard_focus_side(view, serial, sid, entering, window, focused), is_keyboard_leave())
            == (if !entering && view.focus_target(sid) is Some {
            view.keyboards.len()
        } else {
            0
        }),
        count_of(keyboard_focus_side(view, serial, sid, entering, window, focused), is_keyboard_enter())
            == (if entering && view.focus_target(sid) is Some {
            view.keyboards.len()
        } else {
            0
        }),
{
    match view.focus_target(sid) {
        Some(surface) => {
            let head = if entering {
                keyboard_enter_events(view.keyboards, serial, surface)
            } else {
                keyboard_leave_events(view.keyboards, serial, surface)
            };
            let rest = match window {
                Some(window) => reconfigure_events(
                    view,
                    crate::proxy::serial_after(serial, view.keyboards.len() as int),
                    sid,
                    window.desired_size,
                    window.state_flags,
                    focused,
                ),
                None => Seq::empty(),
            };
            assert(keyboard_focus_side(view, serial, sid, entering, window, focused) == head + rest);
            lemma_count_concat(head, rest, is_keyboard_leave());
            lemma_count_concat(head, rest, is_keyboard_enter());
            lemma_count_uniform(head, is_keyboard_leave());
            lemma_count_uniform(head, is_keyboard_enter());
            lemma_count_uniform(rest, is_keyboard_leave());
            lemma_count_uniform(rest, is_keyboard_enter());
        },
        None => {
            let none = keyboard_focus_side(view, serial, sid, entering, window, focused);
            lemma_count_uniform(none, is_keyboard_leave());
            lemma_count_uniform(none, is_keyboard_enter());
        },
    }
}

/// A change of keyboard focus tells the client of as many leaves as it has
/// keyboard objects, if the old surface is one of its surfaces, and of none
/// otherwise; and likewise of enters, for the new surface.
pub proof fn lemma_keyboard_focus_symmetry(
    view: ProxyView,
    old_sid: SurfaceId,
    new_sid: SurfaceId,
    old_window: Option<WindowInfo>,
    new_window: Option<WindowInfo>,
    focused: SurfaceId,
)
    ensures
        count_of(
            keyboard_focus_events(view, old_sid, new_sid, old_window, new_window, focused),
            is_keyboard_leave(),
        ) == (if view.focus_target(old_sid) is Some {
            view.keyboards.len()
        } else {
            0
        }),
        count_of(
            keyboard_focus_events(view, old_sid, new_sid, old_window, new_window, focused),
            is_keyboard_enter(),
        ) == (if view.focus_target(new_sid) is Some {
            view.keyboards.len()
        } else {
            0
        }),
{
    let at = crate::proxy::serial_after(
        view.serial,
        crate::proxy::keyboard_leave_serials(view, old_sid, old_window),
    );
    let leaves = keyboard_focus_side(view, view.serial, old_sid, false, old_window, focused);
    let enters = keyboard_focus_side(view, at, new_sid, true, new_window, focused);
    lemma_count_concat(leaves, enters, is_keyboard_leave());
    lemma_count_concat(leaves, enters, is_keyboard_enter());
    lemma_keyboard_side_counts(view, view.serial, old_sid, false, old_window, focused);
    lemma_keyboard_side_counts(view, at, new_sid, true, new_window, focused);
}

/// Tells an event of a reconfiguration.
pub open spec fn is_configure() -> spec_fn(Event) -> bool {
    |event: Event| event is ShellSurfaceConfigure || event is XdgSurfaceConfigure
}

/// A surface that gains or loses the keyboard focus is reconfigured exactly once,
/// if it is in a shell and the coordinator knows it, however many keyboard objects
/// its client has.
pub proof fn lemma_reconfigured_once(
    view: ProxyView,
    serial: u32,
    sid: SurfaceId,
    entering: bool,
    window: WindowInfo,
    focused: SurfaceId,
)
    requires
        view.focus_target(sid) is Some,
        view.info_or_blank(sid).shell_surface_oid is Some,
    ensures
        count_of(
            keyboard_focus_side(view, serial, sid, entering, Some(window), focused),
            is_configure(),
        ) == 1,
{
    let surface = view.focus_target(sid)->0;
    let head = if entering {
        keyboard_enter_events(view.keyboards, serial, surface)
    } else {
        keyboard_leave_events(view.keyboards, serial, surface)
    };
    let rest = reconfigure_events(
        view,
        crate::proxy::serial_after(serial, view.keyboards.len() as int),
        sid,
        window.desired_size,
        window.state_flags,
        focused,
    );
    assert(keyboard_focus_side(view, serial, sid, entering, Some(window), focused) == head + rest);
    lemma_count_concat(head, rest, is_configure());
    lemma_count_uniform(head, is_configure());
    reveal_with_fuel(count_of, 3);
    match view.info_or_blank(sid).shell_surface_oid {
        Some(crate::messages::ShellSurfaceOid::Shell(_)) => {
            assert(rest.len() == 1);
            assert(rest.drop_last().len() == 0);
        },
        Some(crate::messages::ShellSurfaceOid::ZxdgToplevelV6(_, _)) => {
            assert(rest.len() == 2);
            assert(rest.drop_last().len() == 1);
            assert(rest.drop_last().drop_last().len() == 0);
        },
        None => {},
    }
}

/// The buffer that is attached last is the one that the next frame releases.
pub proof fn lemma_attached_is_released(
    view: ProxyView,
    sid: SurfaceId,
    buffer: ObjectId,
    time: Milliseconds,
)
    ensures
        ({
            let attached = ProxyView { infos: with_buffer_oid(view, sid, buffer), ..view };
            count_of(surface_frame_events(attached, sid, time), is_release_of(buffer)) == 1
        }),
{
    let attached = ProxyView { infos: with_buffer_oid(view, sid, buffer), ..view };
    lemma_first_frame_releases(attached, sid, buffer, time);
}

} // verus!
