//! Plain values shared by all parts of the compositor.

use vstd::prelude::*;

verus! {

/// Identifier that a dispatcher gives to a handler. The engine names each client
/// by the identifier of the handler of its socket.
pub type EventHandlerId = u64;

/// Identifier of a surface, unique in the process. Zero names no surface.
#[derive(Clone, Copy, PartialEq, Eq, Debug, Structural)]
pub struct SurfaceId {
    pub value: u64,
}

impl SurfaceId {
    pub fn new(value: u64) -> (sid: SurfaceId)
        ensures
            sid.value == value,
    {
        SurfaceId { value }
    }

    /// The identifier that names no surface.
    pub fn invalid() -> (sid: SurfaceId)
        ensures
            sid.value == 0,
            !sid.is_valid(),
    {
        SurfaceId { value: 0 }
    }

    #[verifier::when_used_as_spec(spec_is_valid)]
    pub fn is_valid(&self) -> (valid: bool)
        ensures
            valid == self.spec_is_valid(),
    {
        self.value != 0
    }

    pub open spec fn spec_is_valid(&self) -> bool {
        self.value != 0
    }
}

/// Identifier of a protocol object, chosen by the client.
#[derive(Clone, Copy, PartialEq, Eq, Debug, Structural)]
pub struct ObjectId {
    pub value: u32,
}

impl ObjectId {
    pub fn new(value: u32) -> (oid: ObjectId)
        ensures
            oid.value == value,
    {
        ObjectId { value }
    }

    pub fn get_value(&self) -> (value: u32)
        ensures
            value == self.value,
    {
        self.value
    }
}

/// `skylane::server::DISPLAY_ID`: the object every client starts with, the display,
/// has identifier 1.
#[verifier::external_body]
fn skylane_display_id() -> (value: u32)
    ensures
        value == 1,
{
    skylane::server::DISPLAY_ID.get_value()
}

/// Identifier of the display object of every client.
pub fn display_id() -> (oid: ObjectId)
    ensures
        oid.value == 1,
{
    ObjectId { value: skylane_display_id() }
}

/// Identifier of a pool of shared memory.
#[derive(Clone, Copy, PartialEq, Eq, Debug, Structural)]
pub struct MemoryPoolId {
    pub value: u64,
}

/// Identifier of a rectangular view into a memory pool.
#[derive(Clone, Copy, PartialEq, Eq, Debug, Structural)]
pub struct MemoryViewId {
    pub value: u64,
}

/// A point, or a displacement, in pixels.
#[derive(Clone, Copy, PartialEq, Eq, Debug, Structural)]
pub struct Position {
    pub x: isize,
    pub y: isize,
}

impl Position {
    pub fn new(x: isize, y: isize) -> (position: Position)
        ensures
            position.x == x,
            position.y == y,
    {
        Position { x, y }
    }

    /// The origin.
    pub fn origin() -> (position: Position)
        ensures
            position.x == 0,
            position.y == 0,
    {
        Position { x: 0, y: 0 }
    }
}

/// Width and height, in pixels or in millimeters.
#[derive(Clone, Copy, PartialEq, Eq, Debug, Structural)]
pub struct Size {
    pub width: usize,
    pub height: usize,
}

impl Size {
    pub fn new(width: usize, height: usize) -> (size: Size)
        ensures
            size.width == width,
            size.height == height,
    {
        Size { width, height }
    }
}

/// A rectangle.
#[derive(Clone, Copy, PartialEq, Eq, Debug, Structural)]
pub struct Area {
    pub pos: Position,
    pub size: Size,
}

impl Area {
    pub fn new(pos: Position, size: Size) -> (area: Area)
        ensures
            area.pos == pos,
            area.size == size,
    {
        Area { pos, size }
    }
}

/// A point in time, in milliseconds.
#[derive(Clone, Copy, PartialEq, Eq, Debug, Structural)]
pub struct Milliseconds {
    pub value: u64,
}

impl Milliseconds {
    pub fn new(value: u64) -> (time: Milliseconds)
        ensures
            time.value == value,
    {
        Milliseconds { value }
    }

    pub fn get_value(&self) -> (value: u64)
        ensures
            value == self.value,
    {
        self.value
    }

    /// The low 32 bits, as the wire carries a time.
    pub fn truncated(&self) -> (value: u32)
        ensures
            value == self.value as u32,
    {
        #[verifier::truncate]
        (self.value as u32)
    }
}

/// A key press or release.
#[derive(Clone, Copy, PartialEq, Eq, Debug, Structural)]
pub struct Key {
    pub code: u16,
    pub value: i32,
    pub time: Milliseconds,
}

/// A pointer button press or release. A value of zero is a release.
#[derive(Clone, Copy, PartialEq, Eq, Debug, Structural)]
pub struct Button {
    pub code: u16,
    pub value: i32,
    pub time: Milliseconds,
}

/// State of the keyboard modifiers.
#[derive(Clone, Copy, PartialEq, Eq, Debug, Structural)]
pub struct KeyMods {
    pub depressed: u32,
    pub latched: u32,
    pub locked: u32,
    pub effective: u32,
}

/// State flags of a surface.
#[derive(Clone, Copy, PartialEq, Eq, Debug, Structural)]
pub struct SurfaceState {
    pub maximized: bool,
}

/// Why a surface is shown.
#[derive(Clone, Copy, PartialEq, Eq, Debug, Structural)]
pub struct ShowReason {
    pub drawable: bool,
    pub in_shell: bool,
}

/// What the coordinator knows of a surface that the protocol reports to its client.
#[derive(Clone, Copy, PartialEq, Eq, Debug, Structural)]
pub struct WindowInfo {
    pub desired_size: Size,
    pub state_flags: SurfaceState,
}

/// What an input device is.
#[derive(Clone, Copy, PartialEq, Eq, Debug, Structural)]
pub enum DeviceKind {
    Keyboard,
    Mouse,
    Touchpad,
    Unknown,
}

/// What clients are told of an output.
#[derive(Clone, PartialEq, Eq, Debug)]
pub struct OutputInfo {
    pub id: i32,
    pub area: Area,
    pub physical_size: Size,
    pub refresh_rate: usize,
    pub make: String,
    pub model: String,
}

/// A DRM device with the CRTC and the connector that drive one output.
#[derive(Clone, PartialEq, Eq, Debug)]
pub struct DrmBundle {
    pub fd: i32,
    pub path: String,
    pub crtc_id: u32,
    pub connector_id: u32,
}

impl DrmBundle {
    /// The same device, CRTC and connector.
    pub open spec fn same_as(&self, other: &DrmBundle) -> bool {
        &&& self.fd == other.fd
        &&& self.path@ == other.path@
        &&& self.crtc_id == other.crtc_id
        &&& self.connector_id == other.connector_id
    }

    /// A copy.
    pub fn duplicate(&self) -> (copy: DrmBundle)
        ensures
            copy.same_as(self),
    {
        DrmBundle {
            fd: self.fd,
            path: self.path.clone(),
            crtc_id: self.crtc_id,
            connector_id: self.connector_id,
        }
    }
}

/// An error with its description.
#[derive(Clone, PartialEq, Eq, Debug)]
pub enum Illusion {
    General(String),
}

impl Illusion {
    /// The description.
    pub open spec fn text(&self) -> Seq<char> {
        match self {
            Illusion::General(text) => text@,
        }
    }
}

} // verus!
