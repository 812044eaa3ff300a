//! What holds of the routing of focus changes whatever the clients do.

use crate::defs::{EventHandlerId, Position, SurfaceId, WindowInfo};
use crate::engine::{EngineView, FocusCall};
use crate::proxy::{ProxyView, keyboard_focus_events, pointer_focus_events};
use crate::proxy_laws::{
    count_of, is_keyboard_enter, is_keyboard_leave, is_pointer_enter, is_pointer_leave,
    lemma_keyboard_focus_symmetry, lemma_pointer_focus_symmetry,
};
use vstd::prelude::*;

verus! {

/// How many pointer objects are told when the surface `sid` gains or loses the
/// pointer focus: those of the client that owns the surface, if the surface is
/// one that the client can be told of, and none otherwise.
pub open spec fn pointers_told(view: EngineView, sid: SurfaceId) -> nat {
    match view.target(sid) {
        Some(client) => if view.proxy(client)->0.focus_target(sid) is Some {
            view.proxy(client)->0.pointers.len()
        } else {
            0
        },
        None => 0,
    }
}

/// How many keyboard objects are told when the surface `sid` gains or loses the
/// keyboard focus.
pub open spec fn keyboards_told(view: EngineView, sid: SurfaceId) -> nat {
    match view.target(sid) {
        Some(client) => if view.proxy(client)->0.focus_target(sid) is Some {
            view.proxy(client)->0.keyboards.len()
        } else {
            0
        },
        None => 0,
    }
}

/// How many events of a kind the first `count` of `calls` send, when they tell of
/// a change of pointer focus.
pub open spec fn pointer_events_counted(
    view: EngineView,
    calls: Seq<FocusCall>,
    count: int,
    wanted: spec_fn(crate::messages::Event) -> bool,
) -> nat
    decreases count,
{
    if count <= 0 {
        0
    } else {
        let call = calls[count - 1];
        let proxy = view.after_pointer_focus(calls, count - 1).proxy(call.client)->0;
        pointer_events_counted(view, calls, count - 1, wanted) + count_of(
            pointer_focus_events(proxy, call.old_sid, call.new_sid, call.position),
            wanted,
        )
    }
}

/// How many events of a kind the first `count` of `calls` send, when they tell of
/// a change of keyboard focus.
pub open spec fn keyboard_events_counted(
    view: EngineView,
    calls: Seq<FocusCall>,
    count: int,
    old_window: Option<WindowInfo>,
    new_window: Option<WindowInfo>,
    focused: SurfaceId,
    wanted: spec_fn(crate::messages::Event) -> bool,
) -> nat
    decreases count,
{
    if count <= 0 {
        0
    } else {
        let call = calls[count - 1];
        let proxy = view.after_keyboard_focus(calls, count - 1, old_window, new_window).proxy(
            call.client,
        )->0;
        keyboard_events_counted(view, calls, count - 1, old_window, new_window, focused, wanted)
            + count_of(
            keyboard_focus_events(proxy, call.old_sid, call.new_sid, old_window, new_window, focused),
            wanted,
        )
    }
}

/// To change the protocol state of one client changes that of no other.
pub proof fn lemma_other_proxy_kept(
    view: EngineView,
    changed: EventHandlerId,
    proxy: ProxyView,
    other: EventHandlerId,
)
    requires
        view.client_ids.no_duplicates(),
        view.client_ids.len() == view.proxies.len(),
        view.client_ids.contains(changed),
        other != changed,
    ensures
        view.with_proxy(changed, proxy).proxy(other) == view.proxy(other),
        view.with_proxy(changed, proxy).proxy(changed) == Some(proxy),
{
    let at = view.client_ids.index_of(changed);
    assert(view.client_ids[at] == changed);
    if view.client_ids.contains(other) {
        let i = view.client_ids.index_of(other);
        assert(view.client_ids[i] == other);
    }
}

/// A change of pointer focus from one surface to another sends as many leaves as
/// the owner of the old surface has pointer objects, and as many enters as the
/// owner of the new surface has; a surface that no client can be told of counts
/// for none. Where the two surfaces have the same owner, the owner is told once,
/// of both.
pub proof fn lemma_pointer_focus_handoff(
    view: EngineView,
    old_sid: SurfaceId,
    new_sid: SurfaceId,
    position: Position,
)
    requires
        view.client_ids.no_duplicates(),
        view.client_ids.len() == view.proxies.len(),
    ensures
        ({
            let calls = view.focus_calls(old_sid, new_sid, position);
            &&& calls.len() <= 2
            &&& view.owner(old_sid) == view.owner(new_sid) ==> calls.len() <= 1
            &&& pointer_events_counted(view, calls, calls.len() as int, is_pointer_leave())
                == pointers_told(view, old_sid)
            &&& pointer_events_counted(view, calls, calls.len() as int, is_pointer_enter())
                == pointers_told(view, new_sid)
        }),
{
    let calls = view.focus_calls(old_sid, new_sid, position);
    reveal_with_fuel(pointer_events_counted, 3);
    reveal_with_fuel(EngineView::after_pointer_focus, 3);
    if calls.len() >= 1 {
        let first = calls[0];
        let proxy = view.proxy(first.client)->0;
        lemma_pointer_focus_symmetry(proxy, first.old_sid, first.new_sid, first.position);
        if calls.len() == 2 {
            let second = calls[1];
            let told = ProxyView {
                serial: crate::proxy::serial_after(
                    proxy.serial,
                    pointer_focus_events(proxy, first.old_sid, first.new_sid, first.position).len() as int,
                ),
                ..proxy
            };
            lemma_other_proxy_kept(view, first.client, told, second.client);
            let other = view.proxy(second.client)->0;
            lemma_pointer_focus_symmetry(other, second.old_sid, second.new_sid, second.position);
        }
    }
}

/// A change of keyboard focus from one surface to another sends as many leaves as
/// the owner of the old surface has keyboard objects, and as many enters as the
/// owner of the new surface has; a surface that no client can be told of counts
/// for none.
pub proof fn lemma_keyboard_focus_handoff(
    view: EngineView,
    old_sid: SurfaceId,
    new_sid: SurfaceId,
    old_window: Option<WindowInfo>,
    new_window: Option<WindowInfo>,
    focused: SurfaceId,
)
    requires
        view.client_ids.no_duplicates(),
        view.client_ids.len() == view.proxies.len(),
    ensures
        ({
            let calls = view.focus_calls(old_sid, new_sid, Position { x: 0, y: 0 });
            &&& calls.len() <= 2
            &&& view.owner(old_sid) == view.owner(new_sid) ==> calls.len() <= 1
            &&& keyboard_events_counted(
                view,
                calls,
                calls.len() as int,
                old_window,
                new_window,
                focused,
                is_keyboard_leave(),
            ) == keyboards_told(view, old_sid)
            &&& keyboard_events_counted(
                view,
                calls,
                calls.len() as int,
                old_window,
                new_window,
                focused,
                is_keyboard_enter(),
            ) == keyboards_told(view, new_sid)
        }),
{
    let calls = view.focus_calls(old_sid, new_sid, Position { x: 0, y: 0 });
    reveal_with_fuel(keyboard_events_counted, 3);
    reveal_with_fuel(EngineView::after_keyboard_focus, 3);
    if calls.len() >= 1 {
        let first = calls[0];
        let proxy = view.proxy(first.client)->0;
        lemma_keyboard_focus_symmetry(proxy, first.old_sid, first.new_sid, old_window, new_window, focused);
        if calls.len() == 2 {
            let second = calls[1];
            let told = ProxyView {
                serial: crate::proxy::serial_after(
                    proxy.serial,
                    crate::proxy::keyboard_leave_serials(proxy, first.old_sid, old_window)
                        + crate::proxy::keyboard_enter_serials(proxy, first.new_sid, new_window),
                ),
                ..proxy
            };
            lemma_other_proxy_kept(view, first.client, told, second.client);
            let other = view.proxy(second.client)->0;
            lemma_keyboard_focus_symmetry(other, second.old_sid, second.new_sid, old_window, new_window, focused);
        }
    }
}

} // verus!
