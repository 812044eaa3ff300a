use perceptia::event_kind::{EventKind, EPOLLERR, EPOLLHUP, EPOLLIN, EPOLLOUT};

#[test]
fn epoll_read_mask_is_read_kind() {
    let kind = EventKind::from_epoll(0x1);
    assert_eq!(kind, EventKind { read: true, write: false, hangup: false });
    assert_eq!(kind, EventKind::read());
}

#[test]
fn epoll_write_mask_is_write_kind() {
    assert_eq!(EventKind::from_epoll(0x4), EventKind::write());
}

#[test]
fn hangup_mask_is_hangup_alone() {
    assert_eq!(EventKind::from_epoll(0x10), EventKind::hangup());
    assert_eq!(EventKind::from_epoll(0x8), EventKind::hangup());
    assert_eq!(EventKind::from_epoll(0x18), EventKind::hangup());
}

#[test]
fn other_epoll_bits_are_ignored() {
    // EPOLLPRI (0x2) and EPOLLRDHUP (0x2000) stand for no kind.
    assert_eq!(EventKind::from_epoll(0x2), EventKind::empty());
    assert_eq!(EventKind::from_epoll(0x2000), EventKind::empty());
    assert_eq!(EventKind::from_epoll(0x2003), EventKind::read());
}

#[test]
fn mixed_mask_gives_every_kind() {
    let kind = EventKind::from_epoll(0x1 | 0x4 | 0x10);
    assert_eq!(kind, EventKind { read: true, write: true, hangup: true });
    assert!(kind != EventKind::hangup());
}

#[test]
fn kinds_convert_to_epoll_masks() {
    assert_eq!(EventKind::empty().into_epoll(), 0);
    assert_eq!(EventKind::read().into_epoll(), 0x1);
    assert_eq!(EventKind::write().into_epoll(), 0x4);
    assert_eq!(EventKind::hangup().into_epoll(), 0x18);
    let all = EventKind { read: true, write: true, hangup: true };
    assert_eq!(all.into_epoll(), 0x1d);
}

#[test]
fn epoll_constants_are_those_of_the_kernel() {
    assert_eq!(EPOLLIN, 0x1);
    assert_eq!(EPOLLOUT, 0x4);
    assert_eq!(EPOLLERR, 0x8);
    assert_eq!(EPOLLHUP, 0x10);
}

#[test]
fn conversion_round_trips_for_every_set() {
    for bits in 0..8u32 {
        let kind = EventKind { read: bits & 1 != 0, write: bits & 2 != 0, hangup: bits & 4 != 0 };
        assert_eq!(EventKind::from_epoll(kind.into_epoll()), kind);
    }
}

#[test]
fn insert_and_intersects_work_on_sets() {
    let mut kind = EventKind::empty();
    assert!(kind.is_empty());
    kind.insert(EventKind::read());
    assert!(!kind.is_empty());
    assert!(kind.intersects(EventKind::read()));
    assert!(!kind.intersects(EventKind::write()));
    kind.insert(EventKind::hangup());
    assert_eq!(kind, EventKind { read: true, write: false, hangup: true });
    assert!(kind.intersects(EventKind { read: false, write: true, hangup: true }));
    assert!(!kind.intersects(EventKind::empty()));
}
