//! Handlers of the requests that a client makes on its protocol objects.
//!
//! A handler answers a request with the events to send back and with a task for
//! the connection: to create an object, to destroy one, or nothing.

pub mod data_device_manager;
pub mod display;
pub mod registry;
pub mod subcompositor;

use crate::defs::ObjectId;
use vstd::prelude::*;

verus! {

/// A protocol object that a connection is to hold.
#[derive(Clone, Copy, PartialEq, Eq, Debug, Structural)]
pub enum ProtocolObject {
    /// The `wl_display` of a client.
    Display(display::Display),
    /// A `wl_registry` of a client.
    Registry(registry::Registry),
    /// A `wl_subcompositor`.
    Subcompositor(subcompositor::Subcompositor),
    /// A `wl_subsurface`.
    Subsurface(subcompositor::Subsurface),
    /// A `wl_data_device_manager`.
    DataDeviceManager(data_device_manager::DataDeviceManager),
}

/// What a connection is to do after a request.
#[derive(Clone, Copy, PartialEq, Eq, Debug, Structural)]
pub enum Task {
    /// Hold a new object under the identifier `id`.
    Create { id: ObjectId, object: ProtocolObject },
    /// Let go of the object `id`.
    Destroy { id: ObjectId },
    /// Nothing.
    Nothing,
}

} // verus!
