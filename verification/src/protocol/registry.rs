//! The `wl_registry` object.

use crate::defs::{EventHandlerId, ObjectId};
use crate::global::{Global, Interface};
use crate::protocol::data_device_manager::DataDeviceManager;
use crate::protocol::subcompositor::Subcompositor;
use crate::protocol::{ProtocolObject, Task};
use crate::proxy::Proxy;
use vstd::prelude::*;

verus! {

/// A `wl_registry` object of a client.
#[derive(Clone, Copy, PartialEq, Eq, Debug, Structural)]
pub struct Registry {
    pub client: EventHandlerId,
}

/// The object that a client gets when it binds the global named `name`: the
/// handler of the interface of the global, for the interfaces that have their
/// handler here. A name that no global has, and a global of another interface,
/// give no object.
pub open spec fn bound_object(globals: Seq<Global>, name: u32, client: EventHandlerId) -> Option<ProtocolObject> {
    if 1 <= name <= globals.len() {
        match globals[name - 1].interface {
            Interface::Subcompositor => Some(ProtocolObject::Subcompositor(Subcompositor { client })),
            Interface::DataDeviceManager => Some(
                ProtocolObject::DataDeviceManager(DataDeviceManager {  }),
            ),
            _ => None,
        }
    } else {
        None
    }
}

impl Registry {
    pub fn new(client: EventHandlerId) -> (registry: Registry)
        ensures
            registry.client == client,
    {
        Registry { client: client }
    }

    /// The registry, as an object for a connection to hold.
    pub fn new_object(client: EventHandlerId) -> (object: ProtocolObject)
        ensures
            object == ProtocolObject::Registry(Registry { client }),
    {
        ProtocolObject::Registry(Registry::new(client))
    }

    /// The client binds the global named `name`: the object of the global is
    /// created under the identifier that the client chose. Globals are named from
    /// one, in the order in which they were registered.
    pub fn bind(&self, proxy: &Proxy, name: u32, version: u32, new_object_id: ObjectId) -> (task: Task)
        requires
            proxy.wf(),
        ensures
            task == (match bound_object(proxy@.globals, name, self.client) {
                Some(object) => Task::Create { id: new_object_id, object },
                None => Task::Nothing,
            }),
    {
        match proxy.get_global(name) {
            Some(global) => match global.interface {
                Interface::Subcompositor => Task::Create {
                    id: new_object_id,
                    object: Subcompositor::new_object(new_object_id, version, self.client),
                },
                Interface::DataDeviceManager => Task::Create {
                    id: new_object_id,
                    object: DataDeviceManager::new_object(new_object_id, version, self.client),
                },
                _ => Task::Nothing,
            },
            None => Task::Nothing,
        }
    }
}

} // verus!
