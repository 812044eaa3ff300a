//! Kinds of readiness a dispatcher reports to its handlers, and their conversion
//! to and from the event mask of the kernel's epoll.

use vstd::prelude::*;

verus! {

/// Bit of the epoll mask for "readable".
pub const EPOLLIN: u32 = 0x1;

/// Bit of the epoll mask for "writable".
pub const EPOLLOUT: u32 = 0x4;

/// Bit of the epoll mask for "error".
pub const EPOLLERR: u32 = 0x8;

/// Bit of the epoll mask for "hung up".
pub const EPOLLHUP: u32 = 0x10;

/// A set over the three kinds of event: read, write, and error or hang-up.
///
/// A handler is told of a hang-up whether it asked for it or not.
#[derive(Clone, Copy, PartialEq, Eq, Debug, Structural)]
pub struct EventKind {
    pub read: bool,
    pub write: bool,
    pub hangup: bool,
}

/// `EpollFlags::EPOLLIN` of nix: the flag holds bit 0x1 and no other.
#[verifier::external_body]
fn epoll_in() -> (bits: u32)
    ensures
        bits == EPOLLIN,
{
    nix::sys::epoll::EpollFlags::EPOLLIN.bits() as u32
}

/// `EpollFlags::EPOLLOUT` of nix: the flag holds bit 0x4 and no other.
#[verifier::external_body]
fn epoll_out() -> (bits: u32)
    ensures
        bits == EPOLLOUT,
{
    nix::sys::epoll::EpollFlags::EPOLLOUT.bits() as u32
}

/// `EpollFlags::EPOLLERR` of nix: the flag holds bit 0x8 and no other.
#[verifier::external_body]
fn epoll_err() -> (bits: u32)
    ensures
        bits == EPOLLERR,
{
    nix::sys::epoll::EpollFlags::EPOLLERR.bits() as u32
}

/// `EpollFlags::EPOLLHUP` of nix: the flag holds bit 0x10 and no other.
#[verifier::external_body]
fn epoll_hup() -> (bits: u32)
    ensures
        bits == EPOLLHUP,
{
    nix::sys::epoll::EpollFlags::EPOLLHUP.bits() as u32
}

impl EventKind {
    /// The set without any kind.
    pub fn empty() -> (kind: EventKind)
        ensures
            kind == (EventKind { read: false, write: false, hangup: false }),
    {
        EventKind { read: false, write: false, hangup: false }
    }

    /// Read alone.
    pub fn read() -> (kind: EventKind)
        ensures
            kind == (EventKind { read: true, write: false, hangup: false }),
    {
        EventKind { read: true, write: false, hangup: false }
    }

    /// Write alone.
    pub fn write() -> (kind: EventKind)
        ensures
            kind == (EventKind { read: false, write: true, hangup: false }),
    {
        EventKind { read: false, write: true, hangup: false }
    }

    /// Error or hang-up alone.
    pub fn hangup() -> (kind: EventKind)
        ensures
            kind == (EventKind { read: false, write: false, hangup: true }),
            kind.is_hangup_alone(),
    {
        EventKind { read: false, write: false, hangup: true }
    }

    /// Whether the set is error or hang-up and nothing else.
    pub open spec fn is_hangup_alone(&self) -> bool {
        self.hangup && !self.read && !self.write
    }

    /// Whether no kind is in the set.
    pub fn is_empty(&self) -> (empty: bool)
        ensures
            empty == (!self.read && !self.write && !self.hangup),
    {
        !self.read && !self.write && !self.hangup
    }

    /// Adds the kinds of `other` to the set.
    pub fn insert(&mut self, other: EventKind)
        ensures
            final(self).read == (old(self).read || other.read),
            final(self).write == (old(self).write || other.write),
            final(self).hangup == (old(self).hangup || other.hangup),
    {
        self.read = self.read || other.read;
        self.write = self.write || other.write;
        self.hangup = self.hangup || other.hangup;
    }

    /// Whether the two sets share a kind.
    pub fn intersects(&self, other: EventKind) -> (shared: bool)
        ensures
            shared == ((self.read && other.read) || (self.write && other.write) || (self.hangup
                && other.hangup)),
    {
        (self.read && other.read) || (self.write && other.write) || (self.hangup && other.hangup)
    }

    /// The kinds that an epoll mask reports: read for `EPOLLIN`, write for
    /// `EPOLLOUT`, hang-up for `EPOLLERR` or `EPOLLHUP`. Other bits are ignored.
    pub open spec fn of_epoll(mask: u32) -> EventKind {
        EventKind {
            read: mask & EPOLLIN != 0,
            write: mask & EPOLLOUT != 0,
            hangup: mask & (EPOLLERR | EPOLLHUP) != 0,
        }
    }

    /// The epoll mask that asks for the kinds of the set.
    pub open spec fn epoll_mask(&self) -> u32 {
        (if self.read { EPOLLIN } else { 0u32 })
            | (if self.write { EPOLLOUT } else { 0u32 })
            | (if self.hangup { EPOLLERR | EPOLLHUP } else { 0u32 })
    }

    /// Converts the mask of an epoll event.
    pub fn from_epoll(mask: u32) -> (kind: EventKind)
        ensures
            kind == EventKind::of_epoll(mask),
    {
        EventKind {
            read: mask & epoll_in() != 0,
            write: mask & epoll_out() != 0,
            hangup: mask & (epoll_err() | epoll_hup()) != 0,
        }
    }

    /// Converts to the mask of an epoll event.
    pub fn into_epoll(&self) -> (mask: u32)
        ensures
            mask == self.epoll_mask(),
    {
        let read: u32 = if self.read { epoll_in() } else { 0u32 };
        let write: u32 = if self.write { epoll_out() } else { 0u32 };
        let hangup: u32 = if self.hangup { epoll_err() | epoll_hup() } else { 0u32 };
        read | write | hangup
    }
}

/// Converting a set to an epoll mask and back gives the set again.
pub proof fn lemma_epoll_round_trip(kind: EventKind)
    ensures
        EventKind::of_epoll(kind.epoll_mask()) == kind,
{
    let r: u32 = if kind.read { EPOLLIN } else { 0u32 };
    let w: u32 = if kind.write { EPOLLOUT } else { 0u32 };
    let h: u32 = if kind.hangup { EPOLLERR | EPOLLHUP } else { 0u32 };
    assert((r == 0 || r == 0x1) && (w == 0 || w == 0x4) && (h == 0 || h == (0x8u32 | 0x10u32)) ==> (((r
        | w | h) & 0x1 != 0) == (r != 0) && ((r | w | h) & 0x4 != 0) == (w != 0) && ((r | w | h) & (
    0x8u32 | 0x10u32) != 0) == (h != 0) && (0x8u32 | 0x10u32) != 0)) by (bit_vector);
}

/// A mask of error or hang-up bits alone converts to a hang-up alone.
pub proof fn lemma_hangup_mask(mask: u32)
    requires
        mask != 0,
        mask & !(EPOLLERR | EPOLLHUP) == 0,
    ensures
        EventKind::of_epoll(mask).is_hangup_alone(),
{
    assert(mask != 0 && mask & !(0x8u32 | 0x10u32) == 0 ==> mask & 0x1 == 0 && mask & 0x4 == 0
        && mask & (0x8u32 | 0x10u32) != 0) by (bit_vector);
}

} // verus!
