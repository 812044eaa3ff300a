//! The `wl_data_device_manager` object.

use crate::defs::{EventHandlerId, ObjectId};
use crate::global::{Global, Interface};
use crate::protocol::{ProtocolObject, Task};
use vstd::prelude::*;

verus! {

/// The `wl_data_device_manager` object. It keeps no state.
#[derive(Clone, Copy, PartialEq, Eq, Debug, Structural)]
pub struct DataDeviceManager {
}

/// The global of the data device manager, not registered yet.
pub fn get_global() -> (global: Global)
    ensures
        global == (Global { name: 0, interface: Interface::DataDeviceManager }),
{
    Global::new(Interface::DataDeviceManager)
}

impl DataDeviceManager {
    pub fn new(oid: ObjectId, client: EventHandlerId) -> (manager: DataDeviceManager) {
        DataDeviceManager {  }
    }

    /// The manager, as an object for a connection to hold.
    pub fn new_object(
        oid: ObjectId,
        version: u32,
        client: EventHandlerId,
    ) -> (object: ProtocolObject)
        ensures
            object == ProtocolObject::DataDeviceManager(DataDeviceManager {  }),
    {
        ProtocolObject::DataDeviceManager(DataDeviceManager::new(oid, client))
    }

    /// The client asks for a data source: nothing is done about it.
    pub fn create_data_source(&self, this_object_id: ObjectId, id: ObjectId) -> (task: Task)
        ensures
            task == Task::Nothing,
    {
        Task::Nothing
    }

    /// The client asks for the data device of a seat: nothing is done about it.
    pub fn get_data_device(
        &self,
        this_object_id: ObjectId,
        id: ObjectId,
        seat: ObjectId,
    ) -> (task: Task)
        ensures
            task == Task::Nothing,
    {
        Task::Nothing
    }
}

} // verus!
