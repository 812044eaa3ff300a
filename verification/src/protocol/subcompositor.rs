//! The `wl_subcompositor` and `wl_subsurface` objects.

use crate::defs::{EventHandlerId, ObjectId, Position};
use crate::global::{Global, Interface};
use crate::messages::Request;
use crate::protocol::{ProtocolObject, Task};
use crate::proxy::Proxy;
use vstd::prelude::*;

verus! {

/// The `wl_subcompositor` object of a client.
#[derive(Clone, Copy, PartialEq, Eq, Debug, Structural)]
pub struct Subcompositor {
    pub client: EventHandlerId,
}

/// The global of the subcompositor, not registered yet.
pub fn get_global() -> (global: Global)
    ensures
        global == (Global { name: 0, interface: Interface::Subcompositor }),
{
    Global::new(Interface::Subcompositor)
}

/// The requests that make the surface behind `surface_oid` a child of the one
/// behind `parent_oid`: one request, if the proxy knows both surface objects.
pub open spec fn relation_requests(
    proxy: &Proxy,
    surface_oid: ObjectId,
    parent_oid: ObjectId,
) -> Seq<Request> {
    match (proxy@.sid_of(surface_oid), proxy@.sid_of(parent_oid)) {
        (Some(sid), Some(parent_sid)) => seq![Request::RelateSurfaces { sid, parent_sid }],
        _ => Seq::empty(),
    }
}

impl Subcompositor {
    pub fn new(client: EventHandlerId) -> (subcompositor: Subcompositor)
        ensures
            subcompositor.client == client,
    {
        Subcompositor { client: client }
    }

    /// The subcompositor, as an object for a connection to hold.
    pub fn new_object(
        oid: ObjectId,
        version: u32,
        client: EventHandlerId,
    ) -> (object: ProtocolObject)
        ensures
            object == ProtocolObject::Subcompositor(Subcompositor { client }),
    {
        ProtocolObject::Subcompositor(Subcompositor::new(client))
    }

    /// The client gives up the subcompositor.
    pub fn destroy(&self, this_object_id: ObjectId) -> (task: Task)
        ensures
            task == (Task::Destroy { id: this_object_id }),
    {
        Task::Destroy { id: this_object_id }
    }

    /// The client makes one surface a child of another: a subsurface object is
    /// created, and the coordinator is asked to relate the two surfaces.
    pub fn get_subsurface(
        &self,
        proxy: &Proxy,
        new_subsurface_oid: ObjectId,
        surface_oid: ObjectId,
        parent_oid: ObjectId,
    ) -> (out: (Vec<Request>, Task))
        requires
            proxy.wf(),
        ensures
            out.0@ == relation_requests(proxy, surface_oid, parent_oid),
            out.1 == (Task::Create {
                id: new_subsurface_oid,
                object: ProtocolObject::Subsurface(Subsurface { surface_oid, client: self.client }),
            }),
    {
        let (requests, object) = Subsurface::new_object(surface_oid, parent_oid, proxy, self.client);
        (requests, Task::Create { id: new_subsurface_oid, object: object })
    }
}

/// A `wl_subsurface` object: the role of a surface as the child of another.
#[derive(Clone, Copy, PartialEq, Eq, Debug, Structural)]
pub struct Subsurface {
    pub surface_oid: ObjectId,
    pub client: EventHandlerId,
}

impl Subsurface {
    /// Makes the surface behind `surface_oid` a child of the one behind
    /// `parent_surface_oid`. Where the proxy does not know both, the role is
    /// created all the same, and nothing is asked of the coordinator.
    pub fn new(
        surface_oid: ObjectId,
        parent_surface_oid: ObjectId,
        proxy: &Proxy,
        client: EventHandlerId,
    ) -> (out: (
        Vec<Request>,
        Subsurface,
    ))
        requires
            proxy.wf(),
        ensures
            out.0@ == relation_requests(proxy, surface_oid, parent_surface_oid),
            out.1 == (Subsurface { surface_oid, client }),
    {
        let requests = match (proxy.find_sid(surface_oid), proxy.find_sid(parent_surface_oid)) {
            (Some(sid), Some(parent_sid)) => proxy.relate(sid, parent_sid),
            _ => Vec::new(),
        };
        (requests, Subsurface { surface_oid: surface_oid, client: client })
    }

    /// The subsurface, as an object for a connection to hold.
    pub fn new_object(
        surface_oid: ObjectId,
        parent_surface_oid: ObjectId,
        proxy: &Proxy,
        client: EventHandlerId,
    ) -> (out: (
        Vec<Request>,
        ProtocolObject,
    ))
        requires
            proxy.wf(),
        ensures
            out.0@ == relation_requests(proxy, surface_oid, parent_surface_oid),
            out.1 == ProtocolObject::Subsurface(Subsurface { surface_oid, client }),
    {
        let (requests, subsurface) = Subsurface::new(surface_oid, parent_surface_oid, proxy, client);
        (requests, ProtocolObject::Subsurface(subsurface))
    }

    /// The client gives up the role: the surface is parted from its parent.
    pub fn destroy(&self, proxy: &Proxy, this_object_id: ObjectId) -> (out: (Vec<Request>, Task))
        requires
            proxy.wf(),
        ensures
            out.0@ == (match proxy@.sid_of(self.surface_oid) {
                Some(sid) => seq![Request::UnrelateSurface { sid }],
                None => Seq::<Request>::empty(),
            }),
            out.1 == (Task::Destroy { id: this_object_id }),
    {
        let requests = match proxy.find_sid(self.surface_oid) {
            Some(sid) => proxy.unrelate(sid),
            None => Vec::new(),
        };
        (requests, Task::Destroy { id: this_object_id })
    }

    /// The client places the surface relative to its parent.
    pub fn set_position(&self, proxy: &Proxy, x: i32, y: i32) -> (out: (Vec<Request>, Task))
        requires
            proxy.wf(),
        ensures
            out.0@ == (match proxy@.sid_of(self.surface_oid) {
                Some(sid) => seq![
                    Request::SetSurfaceRelativePosition {
                        sid,
                        offset: Position { x: x as isize, y: y as isize },
                    },
                ],
                None => Seq::<Request>::empty(),
            }),
            out.1 == Task::Nothing,
    {
        let requests = match proxy.find_sid(self.surface_oid) {
            Some(sid) => proxy.set_relative_position(sid, Position::new(x as isize, y as isize)),
            None => Vec::new(),
        };
        (requests, Task::Nothing)
    }

    /// The client places the surface above a sibling: nothing is done about it.
    pub fn place_above(&self, sibling: ObjectId) -> (task: Task)
        ensures
            task == Task::Nothing,
    {
        Task::Nothing
    }

    /// The client places the surface below a sibling: nothing is done about it.
    pub fn place_below(&self, sibling: ObjectId) -> (task: Task)
        ensures
            task == Task::Nothing,
    {
        Task::Nothing
    }

    /// The client makes the surface synchronized: nothing is done about it.
    pub fn set_sync(&self) -> (task: Task)
        ensures
            task == Task::Nothing,
    {
        Task::Nothing
    }

    /// The client makes the surface desynchronized: nothing is done about it.
    pub fn set_desync(&self) -> (task: Task)
        ensures
            task == Task::Nothing,
    {
        Task::Nothing
    }
}

} // verus!
