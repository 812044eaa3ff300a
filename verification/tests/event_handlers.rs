use perceptia::dispatcher::{EventHandler, LocalDispatcher, Waited};
use perceptia::event_handlers::{ClientEventHandler, DisplayEventHandler, Notice, Sink};
use perceptia::event_kind::EventKind;
use std::cell::RefCell;
use std::rc::Rc;

#[derive(Clone, Default)]
struct Notices {
    told: Rc<RefCell<Vec<Notice>>>,
}

impl Sink for Notices {
    fn put(&mut self, notice: Notice) {
        self.told.borrow_mut().push(notice);
    }
}

#[test]
fn listening_socket_tells_of_clients_that_wait() {
    let notices = Notices::default();
    let mut handler = DisplayEventHandler::new(3, notices.clone());
    assert_eq!(handler.get_fd(), 3);
    handler.set_id(1);
    handler.process_event(EventKind::read());
    handler.process_event(EventKind::write());
    handler.process_event(EventKind::hangup());
    handler.process_event(EventKind { read: true, write: false, hangup: true });
    assert_eq!(*notices.told.borrow(), vec![Notice::NewClient, Notice::NewClient]);
}

#[test]
fn client_socket_tells_of_requests_and_of_the_hang_up() {
    let notices = Notices::default();
    let mut handler = ClientEventHandler::new(8, notices.clone());
    assert_eq!(handler.get_fd(), 8);
    handler.set_id(5);
    handler.process_event(EventKind::read());
    handler.process_event(EventKind::write());
    handler.process_event(EventKind { read: true, write: false, hangup: true });
    handler.process_event(EventKind::hangup());
    assert_eq!(
        *notices.told.borrow(),
        vec![Notice::ClientData(5), Notice::ClientData(5), Notice::ClientHangup(5)]
    );
}

#[test]
fn client_handler_learns_its_identifier_from_the_dispatcher() {
    let notices = Notices::default();
    let mut dispatcher: LocalDispatcher<dyn EventHandler> = LocalDispatcher::new();
    dispatcher.add_source(Box::new(DisplayEventHandler::new(3, notices.clone())), EventKind::read());
    let registration =
        dispatcher.add_source(Box::new(ClientEventHandler::new(8, notices.clone())), EventKind::read());
    assert_eq!((registration.id, registration.fd), (2, 8));
    dispatcher.wait_and_process(Waited::Events { ready: 1, id: 1, events: 0x1 });
    dispatcher.wait_and_process(Waited::Events { ready: 1, id: 2, events: 0x1 });
    let (_, removed) = dispatcher.wait_and_process(Waited::Events { ready: 1, id: 2, events: 0x10 });
    assert!(removed.is_some());
    assert_eq!(
        *notices.told.borrow(),
        vec![Notice::NewClient, Notice::ClientData(2), Notice::ClientHangup(2)]
    );
}
