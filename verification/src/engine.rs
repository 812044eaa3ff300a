//! The engine of the Wayland front end: the clients, each with its protocol state,
//! and the routing of what happens in the server to the client that it concerns.
//!
//! Sockets are left to the caller. The engine says what to register with the
//! kernel, which events to send to which client, and what to ask of the
//! coordinator.

use crate::defs::{
    Button, DrmBundle, EventHandlerId, Key, KeyMods, Milliseconds, ObjectId, OutputInfo, Position,
    Size, SurfaceId, SurfaceState, WindowInfo, display_id,
};
use crate::dispatcher::{
    EventHandler, InnerState, LocalDispatcher, Registration, WaitOutcome, Waited, added, processed,
};
use crate::event_kind::{EPOLLIN, EventKind};
use crate::global::{Global, Interface, get_output_global};
use crate::mediator::Mediator;
use crate::messages::{Event, Request};
use crate::protocol::display::Display;
use crate::protocol::{ProtocolObject, Task};
use crate::proxy::{
    FacadeRequest, Proxy, ProxyView, after_surface_frame, facade_events, facade_owners,
    facade_requests, facade_view, key_serials, keyboard_enter_serials, keyboard_focus_events,
    keyboard_input_events, keyboard_leave_serials, owners_without, pointer_button_events,
    pointer_focus_events, pointer_motion_events, reconfigure_events, reconfigure_serials,
    serial_after, surface_frame_events, terminate_requests,
};
use crate::registry::Registry;
use crate::text::{natural, natural_text};
use vstd::prelude::*;

verus! {

/// How many names the engine tries for its socket.
pub const SOCKET_NAMES: usize = 10;

/// The name of the socket that the engine tries after `attempt` names were taken:
/// `wayland-0` first, `wayland-9` last. After ten attempts there is no name left.
pub fn socket_name(attempt: usize) -> (name: Option<String>)
    ensures
        name is Some <==> attempt < SOCKET_NAMES,
        name is Some ==> name->0@ == "wayland-"@ + natural_text(attempt as nat),
{
    if attempt < SOCKET_NAMES {
        let mut name = "wayland-".to_owned();
        let number = natural(attempt as u64);
        name.append(number.as_str());
        Some(name)
    } else {
        None
    }
}

/// The interfaces that every client is offered, in the order in which they are
/// registered. The outputs come after them.
pub open spec fn fixed_interfaces() -> Seq<Interface> {
    seq![
        Interface::Shm,
        Interface::Compositor,
        Interface::Shell,
        Interface::XdgShellV6,
        Interface::DataDeviceManager,
        Interface::Seat,
        Interface::Subcompositor,
        Interface::WestonScreenshooter,
        Interface::LinuxDmabufV1,
        Interface::MesaDrm,
    ]
}

/// The globals of a client that connects while the outputs `outputs` are known:
/// the fixed interfaces and then one global for each output, in the order in
/// which the outputs were found, named from one.
pub open spec fn initial_globals(outputs: Seq<OutputInfo>) -> Seq<Global> {
    Seq::new(
        10 + outputs.len(),
        |i: int|
            Global {
                name: (i + 1) as u32,
                interface: if i < 10 {
                    fixed_interfaces()[i]
                } else {
                    Interface::Output(outputs[i - 10].id)
                },
            },
    )
}

/// Events for one client.
#[derive(Clone, PartialEq, Eq, Debug)]
pub struct Delivery {
    /// The client.
    pub client: EventHandlerId,
    /// The events, in the order in which they are to be sent.
    pub events: Vec<Event>,
}

/// A client.
pub struct Client {
    proxy: Proxy,
}

impl Client {
    /// The protocol state of the client.
    pub closed spec fn proxy(&self) -> Proxy {
        self.proxy
    }
}

/// The state of an engine as plain mathematics.
pub struct EngineView {
    /// The clients, in the order in which they connected,
    pub client_ids: Seq<EventHandlerId>,
    /// and the protocol state of each.
    pub proxies: Seq<ProxyView>,
    /// The owner of each surface.
    pub owners: Map<u64, EventHandlerId>,
    /// The DRM device in use.
    pub drm_device: Option<(i32, Seq<char>)>,
    /// The client that takes screenshots.
    pub screenshooter: Option<EventHandlerId>,
    /// The outputs, in the order in which they were found.
    pub outputs: Seq<OutputInfo>,
    /// The identifiers of the handlers in the dispatcher.
    pub handlers: Set<EventHandlerId>,
    /// The identifier that the dispatcher gave out last.
    pub last_handler_id: EventHandlerId,
}

impl EngineView {
    /// The protocol state of a client.
    pub open spec fn proxy(&self, id: EventHandlerId) -> Option<ProxyView> {
        if self.client_ids.contains(id) {
            Some(self.proxies[self.client_ids.index_of(id)])
        } else {
            None
        }
    }

    /// The protocol state of the client that owns a surface.
    pub open spec fn owner_proxy(&self, sid: SurfaceId) -> Option<ProxyView> {
        if self.owners.contains_key(sid.value) {
            self.proxy(self.owners[sid.value])
        } else {
            None
        }
    }

    /// The view with the protocol state of the client `id` replaced.
    pub open spec fn with_proxy(&self, id: EventHandlerId, proxy: ProxyView) -> EngineView {
        EngineView { proxies: self.proxies.update(self.client_ids.index_of(id), proxy), ..*self }
    }
}

/// The engine. Its dispatcher is meant for handlers of any kind at once:
/// `Engine<dyn EventHandler>`.
pub struct Engine<E: EventHandler + ?Sized> {
    mediator: Mediator,
    clients: Registry<Client>,
    output_infos: Vec<OutputInfo>,
    dispatcher: LocalDispatcher<E>,
}

impl<E: EventHandler + ?Sized> View for Engine<E> {
    type V = EngineView;

    closed spec fn view(&self) -> EngineView {
        EngineView {
            client_ids: self.clients.keys(),
            proxies: self.clients.values().map_values(|client: Client| client.proxy@),
            owners: self.mediator.owners(),
            drm_device: self.mediator.drm_device(),
            screenshooter: self.mediator.screenshooter(),
            outputs: self.output_infos@,
            handlers: self.dispatcher.handlers().dom(),
            last_handler_id: self.dispatcher.state().inner().last_id(),
        }
    }
}

impl<E: EventHandler + ?Sized> Engine<E> {
    /// The invariant of an engine: no client is listed twice, each is listed
    /// under the identifier of its protocol state, and the protocol state of
    /// each is well formed.
    pub closed spec fn wf(&self) -> bool {
        &&& self.clients.wf()
        &&& self.dispatcher.wf()
        &&& forall|i: int|
            0 <= i < self.clients.values().len() ==> (#[trigger] self.clients.values()[i]).proxy.wf()
                && self.clients.values()[i].proxy@.id == self.clients.keys()[i]
        &&& forall|i: int|
            0 <= i < self.clients.keys().len() ==> #[trigger] self.clients.keys()[i]
                <= self.dispatcher.state().inner().last_id()
        &&& forall|i: int|
            0 <= i < self.clients.values().len() ==> (#[trigger] self.clients.values()[i]).proxy@.globals.len()
                == 10 + self.output_infos@.len()
    }

    /// The handler that the dispatcher holds under the identifier `id`.
    pub closed spec fn handler(&self, id: EventHandlerId) -> Box<E> {
        self.dispatcher.handlers()[id]
    }

    /// The table of handlers of the dispatcher.
    pub closed spec fn table(&self) -> InnerState<E> {
        self.dispatcher.state().inner()
    }

    /// What the view says of the handlers is what the table of handlers holds.
    pub proof fn lemma_table(&self)
        ensures
            self@.handlers == self.table().handlers().dom(),
            self@.last_handler_id == self.table().last_id(),
            forall|id: EventHandlerId| #[trigger] self.handler(id) == self.table().handlers()[id],
    {
    }

    /// The invariant, said of the view.
    pub proof fn lemma_view_wf(&self)
        requires
            self.wf(),
        ensures
            self@.client_ids.no_duplicates(),
            self@.client_ids.len() == self@.proxies.len(),
            forall|i: int|
                0 <= i < self@.proxies.len() ==> (#[trigger] self@.proxies[i]).wf()
                    && self@.proxies[i].id == self@.client_ids[i] && self@.proxies[i].globals.len()
                    == 10 + self@.outputs.len(),
    {
        self.clients.lemma_lengths();
        assert forall|i: int| 0 <= i < self@.proxies.len() implies (#[trigger] self@.proxies[i]).wf()
            && self@.proxies[i].id == self@.client_ids[i] && self@.proxies[i].globals.len() == 10
            + self@.outputs.len() by {
            assert(self.clients.values()[i].proxy.wf());
            self.clients.values()[i].proxy.lemma_view_wf();
        }
    }

    /// An engine without clients and without outputs.
    pub fn new() -> (engine: Engine<E>)
        ensures
            engine.wf(),
            engine@ == (EngineView {
                client_ids: Seq::empty(),
                proxies: Seq::empty(),
                owners: Map::empty(),
                drm_device: None,
                screenshooter: None,
                outputs: Seq::empty(),
                handlers: Set::empty(),
                last_handler_id: 0,
            }),
    {
        let engine = Engine {
            mediator: Mediator::new(),
            clients: Registry::new(),
            output_infos: Vec::new(),
            dispatcher: LocalDispatcher::new(),
        };
        assert(engine@.proxies =~= Seq::empty());
        assert(engine@.handlers =~= Set::empty());
        engine
    }
}

/// The clients: how they come and go.
impl<E: EventHandler + ?Sized> Engine<E> {
    /// A change of the protocol state of one client changes that in the view, and
    /// keeps the invariant.
    proof fn lemma_client_changed(before: &Engine<E>, after: &Engine<E>, i: int)
        requires
            before.wf(),
            0 <= i < before.clients.values().len(),
            after.clients.wf(),
            after.clients.keys() == before.clients.keys(),
            after.clients.values() == before.clients.values().update(i, after.clients.values()[i]),
            after.clients.values()[i].proxy.wf(),
            after.clients.values()[i].proxy@.id == before.clients.values()[i].proxy@.id,
            after.clients.values()[i].proxy@.globals == before.clients.values()[i].proxy@.globals,
            after.mediator.owners() == before.mediator.owners(),
            after.mediator.drm_device() == before.mediator.drm_device(),
            after.mediator.screenshooter() == before.mediator.screenshooter(),
            after.output_infos@ == before.output_infos@,
            after.dispatcher == before.dispatcher,
        ensures
            after.wf(),
            before@.client_ids.contains(before.clients.keys()[i]),
            before@.client_ids.index_of(before.clients.keys()[i]) == i,
            after@ == before@.with_proxy(before.clients.keys()[i], after.clients.values()[i].proxy@),
    {
        before.clients.lemma_lengths();
        before.clients.lemma_position(before.clients.keys()[i], i);
        assert forall|k: int| 0 <= k < after.clients.values().len() implies (
        #[trigger] after.clients.values()[k]).proxy.wf() && after.clients.values()[k].proxy@.id
            == after.clients.keys()[k] by {
            if k != i {
                assert(before.clients.values()[k].proxy.wf());
            } else {
                assert(before.clients.values()[i].proxy.wf());
            }
        }
        assert(after@.proxies =~= before@.proxies.update(i, after.clients.values()[i].proxy@));
    }

    /// Whether another handler can be added to the dispatcher: identifiers are
    /// not used twice.
    pub fn can_add_source(&self) -> (room: bool)
        ensures
            room == (self@.last_handler_id < u64::MAX),
    {
        self.dispatcher.can_add_source()
    }

    /// Whether another output can be offered to the clients: the names of globals
    /// are not used twice, and there are no more of them than a `u32` holds.
    pub fn can_add_output(&self) -> (room: bool)
        ensures
            room == (self@.outputs.len() + 11 < u32::MAX),
    {
        self.output_infos.len() < 0xffff_fff4
    }

    /// Whether `id` is a client.
    pub fn has_client(&self, id: EventHandlerId) -> (present: bool)
        requires
            self.wf(),
        ensures
            present == self@.client_ids.contains(id),
    {
        self.clients.contains_key(id)
    }

    /// Whether a request of the client `id` is to be processed: it is if `id` is
    /// a client.
    pub fn process_events(&self, id: EventHandlerId) -> (known: bool)
        requires
            self.wf(),
        ensures
            known == self@.client_ids.contains(id),
    {
        self.clients.contains_key(id)
    }

    /// Starts the engine: adds the handler of the listening socket to the
    /// dispatcher, for reading.
    pub fn start(&mut self, handler: Box<E>) -> (registration: Registration)
        requires
            old(self).wf(),
            old(self)@.last_handler_id < u64::MAX,
        ensures
            final(self).wf(),
            registration.id == old(self)@.last_handler_id + 1,
            registration.fd == handler.fd(),
            registration.events == EPOLLIN,
            added(old(self).table(), final(self).table(), handler, registration.id),
            !old(self)@.handlers.contains(registration.id),
            final(self)@ == (EngineView {
                handlers: old(self)@.handlers.insert(registration.id),
                last_handler_id: registration.id,
                ..old(self)@
            }),
    {
        proof {
            assert((1u32 | 0u32) | 0u32 == 1u32) by (bit_vector);
        }
        self.dispatcher.add_source(handler, EventKind::read())
    }

    /// Reads what the clients sent: deals with what one wait on the sockets gave.
    pub fn receive(&mut self, waited: Waited) -> (out: (WaitOutcome, Option<Box<E>>))
        requires
            old(self).wf(),
        ensures
            final(self).wf(),
            out.0 == crate::dispatcher::outcome_of(waited),
            final(self)@.handlers.subset_of(old(self)@.handlers),
            final(self)@ == (EngineView { handlers: final(self)@.handlers, ..old(self)@ }),
            processed(old(self).table(), final(self).table(), waited, out.1),
    {
        self.dispatcher.wait_and_process(waited)
    }

    /// A client connected. Its handler is added to the dispatcher, for reading,
    /// and the client is known from now on by the identifier of the handler. It
    /// is offered the fixed interfaces and the outputs, in this order. Its
    /// connection is to hold its display object, under the identifier that every
    /// display object has.
    pub fn handle_new_client(&mut self, handler: Box<E>) -> (out: (Registration, Task))
        requires
            old(self).wf(),
            old(self)@.last_handler_id < u64::MAX,
            old(self)@.outputs.len() + 10 < u32::MAX,
        ensures
            final(self).wf(),
            out.1 == (Task::Create {
                id: ObjectId { value: 1 },
                object: ProtocolObject::Display(Display { client: out.0.id }),
            }),
            ({
                let registration = out.0;
                &&& registration.id == old(self)@.last_handler_id + 1
                &&& registration.fd == handler.fd()
                &&& registration.events == EPOLLIN
                &&& added(old(self).table(), final(self).table(), handler, registration.id)
            }),
            final(self)@ == (EngineView {
                client_ids: old(self)@.client_ids.push(out.0.id),
                proxies: old(self)@.proxies.push(
                    ProxyView {
                        id: out.0.id,
                        globals: initial_globals(old(self)@.outputs),
                        regions: Map::empty(),
                        pointers: Seq::empty(),
                        keyboards: Seq::empty(),
                        pools: Seq::empty(),
                        surface_oids: Seq::empty(),
                        surface_sids: Seq::empty(),
                        infos: Map::empty(),
                        buffers: Map::empty(),
                        serial: 0,
                    },
                ),
                handlers: old(self)@.handlers.insert(out.0.id),
                last_handler_id: out.0.id,
                ..old(self)@
            }),
    {
        proof {
            assert((1u32 | 0u32) | 0u32 == 1u32) by (bit_vector);
            self.clients.lemma_lengths();
            if self.clients.has((self.dispatcher.state().inner().last_id() + 1) as u64) {
                let p = self.clients.position_of((self.dispatcher.state().inner().last_id() + 1) as u64);
                assert(self.clients.keys()[p] <= self.dispatcher.state().inner().last_id());
            }
        }
        let registration = self.dispatcher.add_source(handler, EventKind::read());
        let id = registration.id;
        let mut proxy = Proxy::new(id);
        proxy.register_global(Global::new(Interface::Shm));
        proxy.register_global(Global::new(Interface::Compositor));
        proxy.register_global(Global::new(Interface::Shell));
        proxy.register_global(Global::new(Interface::XdgShellV6));
        proxy.register_global(Global::new(Interface::DataDeviceManager));
        proxy.register_global(Global::new(Interface::Seat));
        proxy.register_global(Global::new(Interface::Subcompositor));
        proxy.register_global(Global::new(Interface::WestonScreenshooter));
        proxy.register_global(Global::new(Interface::LinuxDmabufV1));
        proxy.register_global(Global::new(Interface::MesaDrm));
        let ghost outputs = self.output_infos@;
        assert(proxy@.globals =~= initial_globals(outputs).subrange(0, 10));
        let n = self.output_infos.len();
        let mut i: usize = 0;
        while i < n
            invariant
                i <= n,
                n == outputs.len(),
                outputs == self.output_infos@,
                n + 10 < u32::MAX,
                proxy.wf(),
                proxy@ == (ProxyView {
                    id: id,
                    globals: initial_globals(outputs).subrange(0, 10 + i),
                    regions: Map::empty(),
                    pointers: Seq::empty(),
                    keyboards: Seq::empty(),
                    pools: Seq::empty(),
                    surface_oids: Seq::empty(),
                    surface_sids: Seq::empty(),
                    infos: Map::empty(),
                    buffers: Map::empty(),
                    serial: 0,
                }),
            decreases n - i,
        {
            proxy.register_global(get_output_global(&self.output_infos[i]));
            assert(proxy@.globals =~= initial_globals(outputs).subrange(0, 10 + i + 1));
            i += 1;
        }
        assert(initial_globals(outputs).subrange(0, 10 + n) =~= initial_globals(outputs));
        self.clients.insert(id, Client { proxy: proxy });
        proof {
            assert forall|k: int| 0 <= k < self.clients.values().len() implies (
            #[trigger] self.clients.values()[k]).proxy.wf() && self.clients.values()[k].proxy@.id
                == self.clients.keys()[k] by {
                if k < old(self).clients.values().len() {
                    assert(old(self).clients.values()[k].proxy.wf());
                }
            }
            assert(self@.proxies =~= old(self)@.proxies.push(proxy@));
        }
        let display = Task::Create { id: display_id(), object: Display::new_object(id) };
        (registration, display)
    }

    /// A client hung up. Its handler is deleted from the dispatcher and handed
    /// back, and the client is known no more. Its memory pools and its surfaces are
    /// to be destroyed, and the mediator forgets the surfaces.
    pub fn terminate_client(&mut self, id: EventHandlerId) -> (out: (
        Option<Box<E>>,
        Vec<Request>,
    ))
        requires
            old(self).wf(),
        ensures
            final(self).wf(),
            out.0 is Some <==> old(self)@.handlers.contains(id),
            !final(self)@.client_ids.contains(id),
            !final(self)@.handlers.contains(id),
            match old(self)@.proxy(id) {
                Some(proxy) => {
                    let i = old(self)@.client_ids.index_of(id);
                    &&& out.1@ == terminate_requests(proxy)
                    &&& final(self)@ == (EngineView {
                        client_ids: old(self)@.client_ids.remove(i),
                        proxies: old(self)@.proxies.remove(i),
                        owners: owners_without(
                            old(self)@.owners,
                            proxy.surface_sids,
                            proxy.surface_sids.len() as int,
                        ),
                        handlers: old(self)@.handlers.remove(id),
                        ..old(self)@
                    })
                },
                None => {
                    &&& out.1@ == Seq::<Request>::empty()
                    &&& final(self)@ == (EngineView {
                        handlers: old(self)@.handlers.remove(id),
                        ..old(self)@
                    })
                },
            },
    {
        proof {
            self.clients.lemma_lengths();
        }
        let handler = self.dispatcher.delete_source(id);
        let removed = self.clients.remove(id);
        proof {
            self.clients.lemma_lengths();
            if old(self).clients.has(id) {
                let p = old(self).clients.position_of(id);
                assert forall|k: int| 0 <= k < self.clients.values().len() implies (
                #[trigger] self.clients.values()[k]).proxy.wf()
                    && self.clients.values()[k].proxy@.id == self.clients.keys()[k] by {
                    let k0 = if k < p {
                        k
                    } else {
                        k + 1
                    };
                    assert(old(self).clients.values()[k0].proxy.wf());
                }
                assert(self@.proxies =~= old(self)@.proxies.remove(p));
                assert(old(self).clients.values()[p].proxy.wf());
            } else {
                assert(self@.proxies =~= old(self)@.proxies);
            }
        }
        let requests = match removed {
            Some(client) => {
                let mut client = client;
                client.proxy.terminate(&mut self.mediator)
            },
            None => Vec::new(),
        };
        (handler, requests)
    }

    /// An output was found: the mediator is told of its DRM device.
    pub fn on_output_found(&mut self, bundle: DrmBundle)
        requires
            old(self).wf(),
        ensures
            final(self).wf(),
            final(self)@ == (EngineView {
                drm_device: Some((bundle.fd, bundle.path@)),
                ..old(self)@
            }),
    {
        self.mediator.set_drm_device(bundle.fd, bundle.path);
    }
}

/// One telling of a change of focus: the client to tell, and what to tell it.
#[derive(Clone, Copy, PartialEq, Eq, Debug, Structural)]
pub struct FocusCall {
    /// The client.
    pub client: EventHandlerId,
    /// The surface that lost the focus, or none.
    pub old_sid: SurfaceId,
    /// The surface that gained the focus, or none.
    pub new_sid: SurfaceId,
    /// Where the pointer is on the surface that gained the focus.
    pub position: Position,
}

impl EngineView {
    /// The client that owns a surface, if it is a client still.
    pub open spec fn target(&self, sid: SurfaceId) -> Option<EventHandlerId> {
        if self.owners.contains_key(sid.value) && self.client_ids.contains(self.owners[sid.value]) {
            Some(self.owners[sid.value])
        } else {
            None
        }
    }

    /// The owner of a surface.
    pub open spec fn owner(&self, sid: SurfaceId) -> Option<EventHandlerId> {
        if self.owners.contains_key(sid.value) {
            Some(self.owners[sid.value])
        } else {
            None
        }
    }

    /// Who is told what when the focus goes from `old_sid` to `new_sid`. Where the
    /// two surfaces have different owners, the owner of the old one is told of a
    /// leave and then the owner of the new one of an enter. Where they have the
    /// same owner, it is told once, of both.
    pub open spec fn focus_calls(
        &self,
        old_sid: SurfaceId,
        new_sid: SurfaceId,
        position: Position,
    ) -> Seq<FocusCall> {
        if self.owner(new_sid) != self.owner(old_sid) {
            (match self.target(old_sid) {
                Some(client) => seq![
                    FocusCall {
                        client,
                        old_sid,
                        new_sid: SurfaceId { value: 0 },
                        position: Position { x: 0, y: 0 },
                    },
                ],
                None => Seq::empty(),
            }) + (match self.target(new_sid) {
                Some(client) => seq![
                    FocusCall { client, old_sid: SurfaceId { value: 0 }, new_sid, position },
                ],
                None => Seq::empty(),
            })
        } else {
            match self.target(old_sid) {
                Some(client) => seq![FocusCall { client, old_sid, new_sid, position }],
                None => Seq::empty(),
            }
        }
    }

    /// The view once the first `count` of `calls` were told of a change of
    /// pointer focus.
    pub open spec fn after_pointer_focus(&self, calls: Seq<FocusCall>, count: int) -> EngineView
        decreases count,
    {
        if count <= 0 {
            *self
        } else {
            let before = self.after_pointer_focus(calls, count - 1);
            let call = calls[count - 1];
            let proxy = before.proxy(call.client)->0;
            before.with_proxy(
                call.client,
                ProxyView {
                    serial: serial_after(
                        proxy.serial,
                        pointer_focus_events(proxy, call.old_sid, call.new_sid, call.position).len() as int,
                    ),
                    ..proxy
                },
            )
        }
    }

    /// The view once the first `count` of `calls` were told of a change of
    /// keyboard focus.
    pub open spec fn after_keyboard_focus(
        &self,
        calls: Seq<FocusCall>,
        count: int,
        old_window: Option<WindowInfo>,
        new_window: Option<WindowInfo>,
    ) -> EngineView
        decreases count,
    {
        if count <= 0 {
            *self
        } else {
            let before = self.after_keyboard_focus(calls, count - 1, old_window, new_window);
            let call = calls[count - 1];
            let proxy = before.proxy(call.client)->0;
            before.with_proxy(
                call.client,
                ProxyView {
                    serial: serial_after(
                        proxy.serial,
                        keyboard_leave_serials(proxy, call.old_sid, old_window) + keyboard_enter_serials(
                            proxy,
                            call.new_sid,
                            new_window,
                        ),
                    ),
                    ..proxy
                },
            )
        }
    }
}

/// The gateway: what happens in the server, routed to the client that it concerns.
impl<E: EventHandler + ?Sized> Engine<E> {
    /// The client that owns a surface, if it is a client still, and where it is
    /// among the clients.
    fn find_target(&self, sid: SurfaceId) -> (found: Option<(EventHandlerId, usize)>)
        requires
            self.wf(),
        ensures
            match self@.target(sid) {
                Some(client) => {
                    let pair = found->0;
                    &&& found is Some
                    &&& pair.0 == client
                    &&& pair.1 == self@.client_ids.index_of(client)
                    &&& pair.1 < self.clients.values().len()
                    &&& self.clients.keys()[pair.1 as int] == client
                },
                None => found is None,
            },
    {
        proof {
            self.clients.lemma_lengths();
        }
        match self.mediator.get_client_for_sid(sid) {
            Some(client) => match self.clients.position(client) {
                Some(i) => Some((client, i)),
                None => None,
            },
            None => None,
        }
    }

    /// Who is to be told what when the focus goes from `old_sid` to `new_sid`.
    pub fn route_focus(
        &self,
        old_sid: SurfaceId,
        new_sid: SurfaceId,
        position: Position,
    ) -> (calls: Vec<FocusCall>)
        requires
            self.wf(),
        ensures
            calls@ == self@.focus_calls(old_sid, new_sid, position),
            calls@.len() <= 2,
            forall|k: int| 0 <= k < calls@.len() ==> self@.client_ids.contains(#[trigger] calls@[k].client),
            calls@.len() == 2 ==> calls@[0].client != calls@[1].client,
    {
        let old_owner = self.mediator.get_client_for_sid(old_sid);
        let new_owner = self.mediator.get_client_for_sid(new_sid);
        let same = match (old_owner, new_owner) {
            (Some(a), Some(b)) => a == b,
            (None, None) => true,
            _ => false,
        };
        let mut calls: Vec<FocusCall> = Vec::new();
        if !same {
            if let Some((client, _)) = self.find_target(old_sid) {
                calls.push(
                    FocusCall {
                        client,
                        old_sid,
                        new_sid: SurfaceId::invalid(),
                        position: Position::origin(),
                    },
                );
            }
            if let Some((client, _)) = self.find_target(new_sid) {
                calls.push(FocusCall { client, old_sid: SurfaceId::invalid(), new_sid, position });
            }
        } else {
            if let Some((client, _)) = self.find_target(old_sid) {
                calls.push(FocusCall { client, old_sid, new_sid, position });
            }
        }
        assert(calls@ =~= self@.focus_calls(old_sid, new_sid, position));
        calls
    }

    /// A frame of a surface was drawn: the owner of the surface is told.
    pub fn on_surface_frame(
        &mut self,
        sid: SurfaceId,
        milliseconds: Milliseconds,
    ) -> (delivery: Option<Delivery>)
        requires
            old(self).wf(),
        ensures
            final(self).wf(),
            match old(self)@.target(sid) {
                Some(client) => {
                    let proxy = old(self)@.proxy(client)->0;
                    &&& delivery is Some
                    &&& delivery->0.client == client
                    &&& delivery->0.events@ == surface_frame_events(proxy, sid, milliseconds)
                    &&& final(self)@ == old(self)@.with_proxy(
                        client,
                        ProxyView { infos: after_surface_frame(proxy, sid), ..proxy },
                    )
                },
                None => delivery is None && final(self)@ == old(self)@,
            },
    {
        match self.find_target(sid) {
            Some((client, i)) => {
                let target = self.clients.value_at_mut(i);
                let events = target.proxy.on_surface_frame(sid, milliseconds);
                proof {
                    Self::lemma_client_changed(old(self), self, i as int);
                }
                Some(Delivery { client, events })
            },
            None => None,
        }
    }

    /// A key was pressed or released: the owner of the surface that has the
    /// keyboard focus is told. `mods` holds the modifiers if the key changed them.
    pub fn on_keyboard_input(
        &mut self,
        key: Key,
        mods: Option<KeyMods>,
        focused: SurfaceId,
    ) -> (delivery: Option<Delivery>)
        requires
            old(self).wf(),
        ensures
            final(self).wf(),
            match old(self)@.target(focused) {
                Some(client) => {
                    let proxy = old(self)@.proxy(client)->0;
                    &&& delivery is Some
                    &&& delivery->0.client == client
                    &&& delivery->0.events@ == keyboard_input_events(
                        proxy.keyboards,
                        proxy.keyboards.len() as int,
                        proxy.serial,
                        key,
                        mods,
                    )
                    &&& final(self)@ == old(self)@.with_proxy(
                        client,
                        ProxyView {
                            serial: serial_after(proxy.serial, proxy.keyboards.len() * key_serials(mods)),
                            ..proxy
                        },
                    )
                },
                None => delivery is None && final(self)@ == old(self)@,
            },
    {
        match self.find_target(focused) {
            Some((client, i)) => {
                let target = self.clients.value_at_mut(i);
                let events = target.proxy.on_keyboard_input(key, mods);
                proof {
                    Self::lemma_client_changed(old(self), self, i as int);
                }
                Some(Delivery { client, events })
            },
            None => None,
        }
    }

    /// The pointer moved on the surface `sid`: the owner of the surface is told.
    pub fn on_pointer_relative_motion(
        &self,
        sid: SurfaceId,
        position: Position,
        milliseconds: Milliseconds,
    ) -> (delivery: Option<Delivery>)
        requires
            self.wf(),
        ensures
            match self@.target(sid) {
                Some(client) => {
                    &&& delivery is Some
                    &&& delivery->0.client == client
                    &&& delivery->0.events@ == pointer_motion_events(
                        self@.proxy(client)->0.pointers,
                        position,
                        milliseconds,
                    )
                },
                None => delivery is None,
            },
    {
        match self.find_target(sid) {
            Some((client, i)) => {
                proof {
                    self.clients.lemma_position(client, i as int);
                }
                let target = self.clients.value_at(i);
                let events = target.proxy.on_pointer_relative_motion(sid, position, milliseconds);
                Some(Delivery { client, events })
            },
            None => None,
        }
    }

    /// A pointer button was pressed or released: the owner of the surface that
    /// has the pointer focus is told.
    pub fn on_pointer_button(
        &mut self,
        btn: Button,
        focused: SurfaceId,
    ) -> (delivery: Option<Delivery>)
        requires
            old(self).wf(),
        ensures
            final(self).wf(),
            match old(self)@.target(focused) {
                Some(client) => {
                    let proxy = old(self)@.proxy(client)->0;
                    &&& delivery is Some
                    &&& delivery->0.client == client
                    &&& delivery->0.events@ == pointer_button_events(proxy.pointers, proxy.serial, btn)
                    &&& final(self)@ == old(self)@.with_proxy(
                        client,
                        ProxyView { serial: serial_after(proxy.serial, 1), ..proxy },
                    )
                },
                None => delivery is None && final(self)@ == old(self)@,
            },
    {
        match self.find_target(focused) {
            Some((client, i)) => {
                let target = self.clients.value_at_mut(i);
                let events = target.proxy.on_pointer_button(btn);
                proof {
                    Self::lemma_client_changed(old(self), self, i as int);
                }
                Some(Delivery { client, events })
            },
            None => None,
        }
    }

    /// The pointer's wheel turned: the owner of the surface that has the pointer
    /// focus would be told, but there is nothing to tell yet.
    pub fn on_pointer_axis(
        &self,
        axis: Position,
        focused: SurfaceId,
    ) -> (delivery: Option<Delivery>)
        requires
            self.wf(),
        ensures
            match self@.target(focused) {
                Some(client) => {
                    &&& delivery is Some
                    &&& delivery->0.client == client
                    &&& delivery->0.events@ == Seq::<Event>::empty()
                },
                None => delivery is None,
            },
    {
        match self.find_target(focused) {
            Some((client, i)) => {
                let target = self.clients.value_at(i);
                let events = target.proxy.on_pointer_axis(axis);
                Some(Delivery { client, events })
            },
            None => None,
        }
    }

    /// A surface got a new size or new state flags: its owner is told. `focused`
    /// is the surface that has the keyboard focus.
    pub fn on_surface_reconfigured(
        &mut self,
        sid: SurfaceId,
        size: Size,
        state_flags: SurfaceState,
        focused: SurfaceId,
    ) -> (delivery: Option<Delivery>)
        requires
            old(self).wf(),
        ensures
            final(self).wf(),
            match old(self)@.target(sid) {
                Some(client) => {
                    let proxy = old(self)@.proxy(client)->0;
                    &&& delivery is Some
                    &&& delivery->0.client == client
                    &&& delivery->0.events@ == reconfigure_events(
                        proxy,
                        proxy.serial,
                        sid,
                        size,
                        state_flags,
                        focused,
                    )
                    &&& final(self)@ == old(self)@.with_proxy(
                        client,
                        ProxyView {
                            serial: serial_after(proxy.serial, reconfigure_serials(proxy, sid)),
                            ..proxy
                        },
                    )
                },
                None => delivery is None && final(self)@ == old(self)@,
            },
    {
        match self.find_target(sid) {
            Some((client, i)) => {
                let target = self.clients.value_at_mut(i);
                let events = target.proxy.on_surface_reconfigured(sid, size, state_flags, focused);
                proof {
                    Self::lemma_client_changed(old(self), self, i as int);
                }
                Some(Delivery { client, events })
            },
            None => None,
        }
    }

    /// A screenshot is done: the client that asked for it is to be told, if it is
    /// a client still.
    pub fn on_screenshot_done(&self) -> (client: Option<EventHandlerId>)
        requires
            self.wf(),
        ensures
            client == (match self@.screenshooter {
                Some(id) if self@.client_ids.contains(id) => Some(id),
                _ => None,
            }),
    {
        match self.mediator.get_screenshooter() {
            Some(id) => if self.clients.contains_key(id) {
                Some(id)
            } else {
                None
            },
            None => None,
        }
    }
}

/// Changes of focus, and new outputs.
impl<E: EventHandler + ?Sized> Engine<E> {
    /// Tells one client of a change of pointer focus.
    fn perform_pointer_focus(&mut self, call: FocusCall) -> (delivery: Delivery)
        requires
            old(self).wf(),
            old(self)@.client_ids.contains(call.client),
        ensures
            final(self).wf(),
            delivery.client == call.client,
            delivery.events@ == pointer_focus_events(
                old(self)@.proxy(call.client)->0,
                call.old_sid,
                call.new_sid,
                call.position,
            ),
            final(self)@ == old(self)@.with_proxy(
                call.client,
                ProxyView {
                    serial: serial_after(
                        old(self)@.proxy(call.client)->0.serial,
                        delivery.events@.len() as int,
                    ),
                    ..old(self)@.proxy(call.client)->0
                },
            ),
    {
        proof {
            self.clients.lemma_lengths();
        }
        let found = self.clients.position(call.client);
        let i = found.unwrap();
        let target = self.clients.value_at_mut(i);
        let events = target.proxy.on_pointer_focus_changed(call.old_sid, call.new_sid, call.position);
        proof {
            Self::lemma_client_changed(old(self), self, i as int);
        }
        Delivery { client: call.client, events }
    }

    /// Tells one client of a change of keyboard focus.
    fn perform_keyboard_focus(
        &mut self,
        call: FocusCall,
        old_window: Option<WindowInfo>,
        new_window: Option<WindowInfo>,
        focused: SurfaceId,
    ) -> (delivery: Delivery)
        requires
            old(self).wf(),
            old(self)@.client_ids.contains(call.client),
        ensures
            final(self).wf(),
            delivery.client == call.client,
            delivery.events@ == keyboard_focus_events(
                old(self)@.proxy(call.client)->0,
                call.old_sid,
                call.new_sid,
                old_window,
                new_window,
                focused,
            ),
            final(self)@ == old(self)@.with_proxy(
                call.client,
                ProxyView {
                    serial: serial_after(
                        old(self)@.proxy(call.client)->0.serial,
                        keyboard_leave_serials(old(self)@.proxy(call.client)->0, call.old_sid, old_window)
                            + keyboard_enter_serials(
                            old(self)@.proxy(call.client)->0,
                            call.new_sid,
                            new_window,
                        ),
                    ),
                    ..old(self)@.proxy(call.client)->0
                },
            ),
    {
        proof {
            self.clients.lemma_lengths();
        }
        let found = self.clients.position(call.client);
        let i = found.unwrap();
        let target = self.clients.value_at_mut(i);
        let events = target.proxy.on_keyboard_focus_changed(
            call.old_sid,
            call.new_sid,
            old_window,
            new_window,
            focused,
        );
        proof {
            Self::lemma_client_changed(old(self), self, i as int);
        }
        Delivery { client: call.client, events }
    }

    /// The pointer focus went from `old_sid` to `new_sid`, with the pointer at
    /// `position` on the new surface. The owners of the two surfaces are told, as
    /// `focus_calls` says; each delivery holds what one of them is told.
    pub fn on_pointer_focus_changed(
        &mut self,
        old_sid: SurfaceId,
        new_sid: SurfaceId,
        position: Position,
    ) -> (deliveries: Vec<Delivery>)
        requires
            old(self).wf(),
        ensures
            final(self).wf(),
            deliveries@.len() == old(self)@.focus_calls(old_sid, new_sid, position).len(),
            forall|k: int|
                0 <= k < deliveries@.len() ==> {
                    let call = old(self)@.focus_calls(old_sid, new_sid, position)[k];
                    let before = old(self)@.after_pointer_focus(
                        old(self)@.focus_calls(old_sid, new_sid, position),
                        k,
                    );
                    &&& (#[trigger] deliveries@[k]).client == call.client
                    &&& deliveries@[k].events@ == pointer_focus_events(
                        before.proxy(call.client)->0,
                        call.old_sid,
                        call.new_sid,
                        call.position,
                    )
                },
            final(self)@ == old(self)@.after_pointer_focus(
                old(self)@.focus_calls(old_sid, new_sid, position),
                old(self)@.focus_calls(old_sid, new_sid, position).len() as int,
            ),
    {
        let calls = self.route_focus(old_sid, new_sid, position);
        let mut deliveries: Vec<Delivery> = Vec::new();
        proof {
            reveal_with_fuel(EngineView::after_pointer_focus, 3);
        }
        if calls.len() > 0 {
            let delivery = self.perform_pointer_focus(calls[0]);
            deliveries.push(delivery);
        }
        if calls.len() > 1 {
            let delivery = self.perform_pointer_focus(calls[1]);
            deliveries.push(delivery);
        }
        deliveries
    }

    /// The keyboard focus went from `old_sid` to `new_sid`. `old_window` and
    /// `new_window` are what the coordinator knows of the two surfaces, `focused`
    /// is the surface that it says has the keyboard focus. The owners of the two
    /// surfaces are told, as `focus_calls` says.
    pub fn on_keyboard_focus_changed(
        &mut self,
        old_sid: SurfaceId,
        new_sid: SurfaceId,
        old_window: Option<WindowInfo>,
        new_window: Option<WindowInfo>,
        focused: SurfaceId,
    ) -> (deliveries: Vec<Delivery>)
        requires
            old(self).wf(),
        ensures
            final(self).wf(),
            deliveries@.len() == old(self)@.focus_calls(old_sid, new_sid, Position { x: 0, y: 0 }).len(),
            forall|k: int|
                0 <= k < deliveries@.len() ==> {
                    let calls = old(self)@.focus_calls(old_sid, new_sid, Position { x: 0, y: 0 });
                    let before = old(self)@.after_keyboard_focus(calls, k, old_window, new_window);
                    &&& (#[trigger] deliveries@[k]).client == calls[k].client
                    &&& deliveries@[k].events@ == keyboard_focus_events(
                        before.proxy(calls[k].client)->0,
                        calls[k].old_sid,
                        calls[k].new_sid,
                        old_window,
                        new_window,
                        focused,
                    )
                },
            final(self)@ == old(self)@.after_keyboard_focus(
                old(self)@.focus_calls(old_sid, new_sid, Position { x: 0, y: 0 }),
                old(self)@.focus_calls(old_sid, new_sid, Position { x: 0, y: 0 }).len() as int,
                old_window,
                new_window,
            ),
    {
        let calls = self.route_focus(old_sid, new_sid, Position::origin());
        let mut deliveries: Vec<Delivery> = Vec::new();
        proof {
            reveal_with_fuel(EngineView::after_keyboard_focus, 3);
        }
        if calls.len() > 0 {
            let delivery = self.perform_keyboard_focus(calls[0], old_window, new_window, focused);
            deliveries.push(delivery);
        }
        if calls.len() > 1 {
            let delivery = self.perform_keyboard_focus(calls[1], old_window, new_window, focused);
            deliveries.push(delivery);
        }
        deliveries
    }

    /// A display was made for a new output: the output is offered to the clients
    /// that are there, and to every client to come.
    pub fn on_display_created(&mut self, output_info: OutputInfo)
        requires
            old(self).wf(),
            old(self)@.outputs.len() + 11 < u32::MAX,
        ensures
            final(self).wf(),
            final(self)@.outputs == old(self)@.outputs.push(output_info),
            final(self)@.client_ids == old(self)@.client_ids,
            final(self)@.proxies.len() == old(self)@.proxies.len(),
            forall|i: int|
                0 <= i < old(self)@.proxies.len() ==> #[trigger] final(self)@.proxies[i] == (ProxyView {
                    globals: old(self)@.proxies[i].globals.push(
                        Global {
                            name: (old(self)@.proxies[i].globals.len() + 1) as u32,
                            interface: Interface::Output(output_info.id),
                        },
                    ),
                    ..old(self)@.proxies[i]
                }),
            final(self)@ == (EngineView {
                outputs: final(self)@.outputs,
                proxies: final(self)@.proxies,
                ..old(self)@
            }),
    {
        proof {
            self.clients.lemma_lengths();
        }
        let global = get_output_global(&output_info);
        let n = self.clients.len();
        let ghost outputs = self.output_infos@;
        let mut i: usize = 0;
        while i < n
            invariant
                i <= n,
                n == old(self).clients.values().len(),
                outputs == old(self).output_infos@,
                outputs.len() + 11 < u32::MAX,
                global == (Global { name: 0, interface: Interface::Output(output_info.id) }),
                old(self).wf(),
                self.clients.wf(),
                self.clients.keys() == old(self).clients.keys(),
                self.clients.values().len() == n,
                self.mediator == old(self).mediator,
                self.dispatcher == old(self).dispatcher,
                self.output_infos == old(self).output_infos,
                forall|k: int|
                    0 <= k < n ==> (#[trigger] self.clients.values()[k]).proxy.wf(),
                forall|k: int|
                    0 <= k < i ==> (#[trigger] self.clients.values()[k]).proxy@ == (ProxyView {
                        globals: old(self).clients.values()[k].proxy@.globals.push(
                            Global {
                                name: (old(self).clients.values()[k].proxy@.globals.len() + 1) as u32,
                                interface: Interface::Output(output_info.id),
                            },
                        ),
                        ..old(self).clients.values()[k].proxy@
                    }),
                forall|k: int|
                    i <= k < n ==> (#[trigger] self.clients.values()[k]).proxy@ == old(self).clients.values()[k].proxy@,
            decreases n - i,
        {
            assert(old(self).clients.values()[i as int].proxy@.globals.len() == 10 + outputs.len());
            let ghost before = self.clients.values();
            let target = self.clients.value_at_mut(i);
            target.proxy.register_global(global);
            proof {
                assert forall|k: int| 0 <= k < n implies (#[trigger] self.clients.values()[k]).proxy.wf() by {
                    if k != i {
                        assert(before[k].proxy.wf());
                    }
                }
                assert forall|k: int| i + 1 <= k < n implies (#[trigger] self.clients.values()[k]).proxy@
                    == old(self).clients.values()[k].proxy@ by {
                    assert(before[k].proxy@ == old(self).clients.values()[k].proxy@);
                }
                assert forall|k: int| 0 <= k < i + 1 implies (#[trigger] self.clients.values()[k]).proxy@
                    == (ProxyView {
                    globals: old(self).clients.values()[k].proxy@.globals.push(
                        Global {
                            name: (old(self).clients.values()[k].proxy@.globals.len() + 1) as u32,
                            interface: Interface::Output(output_info.id),
                        },
                    ),
                    ..old(self).clients.values()[k].proxy@
                }) by {
                    if k < i {
                        assert(before[k].proxy@ == (ProxyView {
                            globals: old(self).clients.values()[k].proxy@.globals.push(
                                Global {
                                    name: (old(self).clients.values()[k].proxy@.globals.len() + 1) as u32,
                                    interface: Interface::Output(output_info.id),
                                },
                            ),
                            ..old(self).clients.values()[k].proxy@
                        }));
                    }
                }
            }
            i += 1;
        }
        self.output_infos.push(output_info);
        proof {
            assert forall|k: int| 0 <= k < self.clients.values().len() implies (
            #[trigger] self.clients.values()[k]).proxy@.id == self.clients.keys()[k]
                && self.clients.values()[k].proxy@.globals.len() == 10 + self.output_infos@.len() by {
                assert(old(self).clients.values()[k].proxy.wf());
            }
        }
    }
}

/// The requests of the clients.
impl<E: EventHandler + ?Sized> Engine<E> {
    /// The protocol state of a client.
    pub fn get_proxy(&self, id: EventHandlerId) -> (proxy: Option<&Proxy>)
        requires
            self.wf(),
        ensures
            proxy is Some <==> self@.client_ids.contains(id),
            proxy is Some ==> proxy->0.wf() && Some(proxy->0@) == self@.proxy(id),
    {
        proof {
            self.clients.lemma_lengths();
        }
        match self.clients.position(id) {
            Some(i) => {
                let client = self.clients.value_at(i);
                assert(self.clients.values()[i as int].proxy.wf());
                Some(&client.proxy)
            },
            None => None,
        }
    }

    /// Takes the next serial of the client `id`, or `None` if `id` is no client.
    pub fn get_next_serial(&mut self, id: EventHandlerId) -> (serial: Option<u32>)
        requires
            old(self).wf(),
        ensures
            final(self).wf(),
            match old(self)@.proxy(id) {
                Some(proxy) => {
                    &&& serial == Some(proxy.serial)
                    &&& final(self)@ == old(self)@.with_proxy(
                        id,
                        ProxyView { serial: serial_after(proxy.serial, 1), ..proxy },
                    )
                },
                None => serial is None && final(self)@ == old(self)@,
            },
    {
        proof {
            self.clients.lemma_lengths();
        }
        match self.clients.position(id) {
            Some(i) => {
                assert(self.clients.values()[i as int].proxy.wf());
                let target = self.clients.value_at_mut(i);
                let serial = target.proxy.get_next_serial();
                proof {
                    Self::lemma_client_changed(old(self), self, i as int);
                }
                Some(serial)
            },
            None => None,
        }
    }

    /// The owner of a surface.
    pub fn get_client_for_sid(&self, sid: SurfaceId) -> (client: Option<EventHandlerId>)
        ensures
            client == self@.owner(sid),
    {
        self.mediator.get_client_for_sid(sid)
    }

    /// Deals with a request of the client `id`: returns what the client is to be
    /// told at once and what is to be asked of the coordinator, or `None` if
    /// `id` is no client.
    pub fn handle_request(&mut self, id: EventHandlerId, request: FacadeRequest) -> (out: Option<
        (Vec<Event>, Vec<Request>),
    >)
        requires
            old(self).wf(),
        ensures
            final(self).wf(),
            match old(self)@.proxy(id) {
                Some(proxy) => {
                    let told = out->0;
                    &&& out is Some
                    &&& told.0@ == facade_events(proxy, request)
                    &&& told.1@ == facade_requests(proxy, request)
                    &&& final(self)@ == (EngineView {
                        owners: facade_owners(old(self)@.owners, id, request),
                        ..old(self)@.with_proxy(id, facade_view(proxy, request))
                    })
                },
                None => out is None && final(self)@ == old(self)@,
            },
    {
        proof {
            self.clients.lemma_lengths();
        }
        match self.clients.position(id) {
            Some(i) => {
                let ghost before = self.clients.values()[i as int].proxy@;
                assert(self.clients.values()[i as int].proxy.wf());
                let target = self.clients.value_at_mut(i);
                let out = target.proxy.handle_request(&mut self.mediator, request);
                proof {
                    self.clients.lemma_lengths();
                    old(self).clients.lemma_position(id, i as int);
                    assert forall|k: int| 0 <= k < self.clients.values().len() implies (
                    #[trigger] self.clients.values()[k]).proxy.wf()
                        && self.clients.values()[k].proxy@.id == self.clients.keys()[k]
                        && self.clients.values()[k].proxy@.globals.len() == 10 + self.output_infos@.len() by {
                        if k != i {
                            assert(old(self).clients.values()[k].proxy.wf());
                        } else {
                            assert(old(self).clients.values()[i as int].proxy.wf());
                        }
                    }
                    assert(self@.proxies =~= old(self)@.proxies.update(
                        i as int,
                        facade_view(before, request),
                    ));
                }
                Some(out)
            },
            None => None,
        }
    }
}

} // verus!
