//! The `wl_display` object.

use crate::defs::{EventHandlerId, ObjectId};
use crate::messages::Event;
use crate::protocol::registry::Registry;
use crate::protocol::{ProtocolObject, Task};
use crate::proxy::{Proxy, global_events};
use vstd::prelude::*;

verus! {

/// The `wl_display` object of a client.
#[derive(Clone, Copy, PartialEq, Eq, Debug, Structural)]
pub struct Display {
    pub client: EventHandlerId,
}

impl Display {
    pub fn new(client: EventHandlerId) -> (display: Display)
        ensures
            display.client == client,
    {
        Display { client: client }
    }

    /// The display, as an object for a connection to hold.
    pub fn new_object(client: EventHandlerId) -> (object: ProtocolObject)
        ensures
            object == ProtocolObject::Display(Display { client }),
    {
        ProtocolObject::Display(Display::new(client))
    }

    /// The client asks to be told when its requests so far are done with: the
    /// callback is done, with `serial` as its data, and its object is deleted.
    pub fn sync(
        &self,
        this_object_id: ObjectId,
        callback: ObjectId,
        serial: u32,
    ) -> (out: (Vec<Event>, Task))
        ensures
            out.0@ == seq![
                Event::CallbackDone { callback, data: serial },
                Event::DisplayDeleteId { display: this_object_id, id: callback.value },
            ],
            out.1 == Task::Nothing,
    {
        let mut events: Vec<Event> = Vec::new();
        events.push(Event::CallbackDone { callback, data: serial });
        events.push(Event::DisplayDeleteId { display: this_object_id, id: callback.get_value() });
        (events, Task::Nothing)
    }

    /// The client asks for a registry: one is created under the identifier that
    /// the client chose, and is told of every global, in the order in which the
    /// globals were registered.
    pub fn get_registry(&self, proxy: &Proxy, new_registry_id: ObjectId) -> (out: (Vec<Event>, Task))
        requires
            proxy.wf(),
        ensures
            out.0@ == global_events(proxy@.globals, new_registry_id),
            out.1 == (Task::Create {
                id: new_registry_id,
                object: ProtocolObject::Registry(Registry { client: self.client }),
            }),
    {
        let events = proxy.advertise_globals(new_registry_id);
        (events, Task::Create { id: new_registry_id, object: Registry::new_object(self.client) })
    }
}

} // verus!
