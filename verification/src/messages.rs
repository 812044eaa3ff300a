//! What the protocol state hands to its surroundings: events for a client, and
//! requests for the coordinator that owns the surfaces.

use crate::defs::{MemoryPoolId, MemoryViewId, ObjectId, Position, ShowReason, Size, SurfaceId};
use crate::global::Interface;
use vstd::prelude::*;

verus! {

/// Whether a pointer button went down or up.
#[derive(Clone, Copy, PartialEq, Eq, Debug, Structural)]
pub enum ButtonState {
    Released,
    Pressed,
}

/// The states that an xdg toplevel is told of. On the wire they form a list:
/// maximized first, then activated, each only if set.
#[derive(Clone, Copy, PartialEq, Eq, Debug, Structural)]
pub struct ToplevelStates {
    pub maximized: bool,
    pub activated: bool,
}

/// One state of an xdg toplevel.
#[derive(Clone, Copy, PartialEq, Eq, Debug, Structural)]
pub enum ToplevelState {
    Maximized,
    Activated,
}

impl ToplevelStates {
    /// The states as the wire lists them.
    pub open spec fn list(&self) -> Seq<ToplevelState> {
        (if self.maximized {
            seq![ToplevelState::Maximized]
        } else {
            Seq::<ToplevelState>::empty()
        }) + (if self.activated {
            seq![ToplevelState::Activated]
        } else {
            Seq::<ToplevelState>::empty()
        })
    }

    /// The states as the wire lists them.
    pub fn to_list(&self) -> (list: Vec<ToplevelState>)
        ensures
            list@ == self.list(),
    {
        let mut list: Vec<ToplevelState> = Vec::new();
        if self.maximized {
            list.push(ToplevelState::Maximized);
        }
        if self.activated {
            list.push(ToplevelState::Activated);
        }
        assert(list@ =~= self.list());
        list
    }
}

/// How a surface is bound to a shell: the object identifiers that its client chose.
#[derive(Clone, Copy, PartialEq, Eq, Debug, Structural)]
pub enum ShellSurfaceOid {
    /// A `wl_shell_surface`.
    Shell(ObjectId),
    /// A `zxdg_surface_v6` and the `zxdg_toplevel_v6` made from it, in this order.
    ZxdgToplevelV6(ObjectId, ObjectId),
}

/// A message from the server to one client.
///
/// Coordinates are whole pixels; the wire carries them as fixed-point numbers.
#[allow(inconsistent_fields)]
#[derive(Clone, Copy, PartialEq, Eq, Debug, Structural)]
pub enum Event {
    /// `wl_keyboard.key`
    KeyboardKey { keyboard: ObjectId, serial: u32, time: u32, key: u32, state: u32 },
    /// `wl_keyboard.modifiers`
    KeyboardModifiers {
        keyboard: ObjectId,
        serial: u32,
        depressed: u32,
        latched: u32,
        locked: u32,
        group: u32,
    },
    /// `wl_keyboard.enter`, with no key held
    KeyboardEnter { keyboard: ObjectId, serial: u32, surface: ObjectId },
    /// `wl_keyboard.leave`
    KeyboardLeave { keyboard: ObjectId, serial: u32, surface: ObjectId },
    /// `wl_pointer.enter`
    PointerEnter { pointer: ObjectId, serial: u32, surface: ObjectId, x: isize, y: isize },
    /// `wl_pointer.leave`
    PointerLeave { pointer: ObjectId, serial: u32, surface: ObjectId },
    /// `wl_pointer.motion`
    PointerMotion { pointer: ObjectId, time: u32, x: isize, y: isize },
    /// `wl_pointer.button`
    PointerButton { pointer: ObjectId, serial: u32, time: u32, button: u32, state: ButtonState },
    /// `wl_callback.done`
    CallbackDone { callback: ObjectId, data: u32 },
    /// `wl_display.delete_id`
    DisplayDeleteId { display: ObjectId, id: u32 },
    /// `wl_buffer.release`
    BufferRelease { buffer: ObjectId },
    /// `wl_shell_surface.configure`, with no edge
    ShellSurfaceConfigure { shell_surface: ObjectId, width: i32, height: i32 },
    /// `zxdg_toplevel_v6.configure`
    XdgToplevelConfigure { toplevel: ObjectId, width: i32, height: i32, states: ToplevelStates },
    /// `zxdg_surface_v6.configure`
    XdgSurfaceConfigure { surface: ObjectId, serial: u32 },
    /// `wl_registry.global`
    RegistryGlobal { registry: ObjectId, name: u32, interface: Interface },
}

/// A call to make on the coordinator.
#[derive(Clone, Copy, PartialEq, Eq, Debug, Structural)]
pub enum Request {
    DestroyMemoryPool { mpid: MemoryPoolId },
    DestroySurface { sid: SurfaceId },
    Attach { mvid: MemoryViewId, sid: SurfaceId },
    CommitSurface { sid: SurfaceId },
    ShowSurface { sid: SurfaceId, reason: ShowReason },
    SetSurfaceOffset { sid: SurfaceId, offset: Position },
    SetSurfaceRequestedSize { sid: SurfaceId, size: Size },
    SetSurfaceRelativePosition { sid: SurfaceId, offset: Position },
    RelateSurfaces { sid: SurfaceId, parent_sid: SurfaceId },
    UnrelateSurface { sid: SurfaceId },
    SetSurfaceAsCursor { sid: SurfaceId },
}

} // verus!
