//! The handlers of the sockets of the Wayland front end: they tell the engine's
//! thread when a client connects, sends requests or hangs up.

use crate::defs::EventHandlerId;
use crate::dispatcher::EventHandler;
use crate::event_kind::EventKind;
use vstd::prelude::*;

verus! {

/// What a socket of the front end has to tell.
#[derive(Clone, Copy, PartialEq, Eq, Debug, Structural)]
pub enum Notice {
    /// A client waits to be accepted.
    NewClient,
    /// The client with this identifier sent requests.
    ClientData(EventHandlerId),
    /// The client with this identifier hung up.
    ClientHangup(EventHandlerId),
}

/// Where the handlers put what they have to tell.
pub trait Sink {
    /// Takes a notice.
    fn put(&mut self, notice: Notice);
}

/// What the listening socket tells of an event: that a client waits, if the
/// socket is readable.
pub open spec fn display_notice(event_kind: EventKind) -> Option<Notice> {
    if event_kind.read {
        Some(Notice::NewClient)
    } else {
        None
    }
}

/// What the socket of the client `id` tells of an event: that the client sent
/// requests, if the socket is readable; or else that the client hung up, if it did.
pub open spec fn client_notice(event_kind: EventKind, id: EventHandlerId) -> Option<Notice> {
    if event_kind.read {
        Some(Notice::ClientData(id))
    } else if event_kind.hangup {
        Some(Notice::ClientHangup(id))
    } else {
        None
    }
}

/// `notices` and then `notice`, if there is one.
pub open spec fn with_notice(notices: Seq<Notice>, notice: Option<Notice>) -> Seq<Notice> {
    match notice {
        Some(notice) => notices.push(notice),
        None => notices,
    }
}

/// The handler of the listening socket.
pub struct DisplayEventHandler<S: Sink> {
    fd: i32,
    sink: S,
    seen: Ghost<Seq<EventKind>>,
    ids: Ghost<Seq<EventHandlerId>>,
    told: Ghost<Seq<Notice>>,
}

impl<S: Sink> DisplayEventHandler<S> {
    /// What the handler put into its sink, in order.
    pub closed spec fn told(&self) -> Seq<Notice> {
        self.told@
    }

    pub fn new(fd: i32, sink: S) -> (handler: Self)
        ensures
            handler.fd() == fd,
            handler.seen() == Seq::<EventKind>::empty(),
            handler.ids() == Seq::<EventHandlerId>::empty(),
            handler.told() == Seq::<Notice>::empty(),
    {
        DisplayEventHandler {
            fd: fd,
            sink: sink,
            seen: Ghost(Seq::empty()),
            ids: Ghost(Seq::empty()),
            told: Ghost(Seq::empty()),
        }
    }
}

impl<S: Sink> EventHandler for DisplayEventHandler<S> {
    closed spec fn fd(&self) -> i32 {
        self.fd
    }

    closed spec fn seen(&self) -> Seq<EventKind> {
        self.seen@
    }

    closed spec fn ids(&self) -> Seq<EventHandlerId> {
        self.ids@
    }

    fn get_fd(&self) -> (fd: i32) {
        self.fd
    }

    /// The listening socket is ready: a client waits to be accepted.
    fn process_event(&mut self, event_kind: EventKind)
        ensures
            final(self).told() == with_notice(old(self).told(), display_notice(event_kind)),
    {
        if event_kind.intersects(EventKind::read()) {
            self.sink.put(Notice::NewClient);
            proof {
                self.told@ = self.told@.push(Notice::NewClient);
            }
        }
        proof {
            self.seen@ = self.seen@.push(event_kind);
        }
    }

    fn set_id(&mut self, id: EventHandlerId)
        ensures
            final(self).told() == old(self).told(),
    {
        proof {
            self.ids@ = self.ids@.push(id);
        }
    }
}

/// The handler of the socket of a client.
pub struct ClientEventHandler<S: Sink> {
    fd: i32,
    id: EventHandlerId,
    sink: S,
    seen: Ghost<Seq<EventKind>>,
    ids: Ghost<Seq<EventHandlerId>>,
    told: Ghost<Seq<Notice>>,
}

impl<S: Sink> ClientEventHandler<S> {
    /// What the handler put into its sink, in order.
    pub closed spec fn told(&self) -> Seq<Notice> {
        self.told@
    }

    /// The identifier that the handler names its client by: the one that it was
    /// told of last, or zero.
    pub closed spec fn client(&self) -> EventHandlerId {
        self.id
    }

    /// The invariant: the handler names its client by the identifier that the
    /// dispatcher told it of last.
    pub closed spec fn wf(&self) -> bool {
        self.id == (if self.ids@.len() > 0 {
            self.ids@.last()
        } else {
            0
        })
    }

    pub fn new(fd: i32, sink: S) -> (handler: Self)
        ensures
            handler.wf(),
            handler.fd() == fd,
            handler.client() == 0,
            handler.seen() == Seq::<EventKind>::empty(),
            handler.ids() == Seq::<EventHandlerId>::empty(),
            handler.told() == Seq::<Notice>::empty(),
    {
        ClientEventHandler {
            fd: fd,
            id: 0,
            sink: sink,
            seen: Ghost(Seq::empty()),
            ids: Ghost(Seq::empty()),
            told: Ghost(Seq::empty()),
        }
    }
}

impl<S: Sink> EventHandler for ClientEventHandler<S> {
    closed spec fn fd(&self) -> i32 {
        self.fd
    }

    closed spec fn seen(&self) -> Seq<EventKind> {
        self.seen@
    }

    closed spec fn ids(&self) -> Seq<EventHandlerId> {
        self.ids@
    }

    fn get_fd(&self) -> (fd: i32) {
        self.fd
    }

    /// The socket of the client is ready: the client sent requests, or hung up.
    fn process_event(&mut self, event_kind: EventKind)
        ensures
            final(self).client() == old(self).client(),
            final(self).told() == with_notice(
                old(self).told(),
                client_notice(event_kind, old(self).client()),
            ),
            old(self).wf() ==> final(self).wf(),
    {
        if event_kind.intersects(EventKind::read()) {
            self.sink.put(Notice::ClientData(self.id));
            proof {
                self.told@ = self.told@.push(Notice::ClientData(self.id));
            }
        } else if event_kind.intersects(EventKind::hangup()) {
            self.sink.put(Notice::ClientHangup(self.id));
            proof {
                self.told@ = self.told@.push(Notice::ClientHangup(self.id));
            }
        }
        proof {
            self.seen@ = self.seen@.push(event_kind);
        }
    }

    /// The dispatcher tells the handler its identifier: the handler names its
    /// client by it from now on.
    fn set_id(&mut self, id: EventHandlerId)
        ensures
            final(self).client() == id,
            final(self).told() == old(self).told(),
            final(self).wf(),
    {
        self.id = id;
        proof {
            self.ids@ = self.ids@.push(id);
        }
    }
}

} // verus!
