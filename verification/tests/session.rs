use stomp_client::event_loop::{client_event, server_event, SessionEvent, SessionEventLoop, Step};
use stomp_client::frames::connect_frame;
use stomp_client::handshake::conclude_handshake;
use stomp_client::session::{event_result, StompClientSession};
use stomp_parser::client::ClientFrame;
use stomp_parser::headers::StompVersion;
use stomp_parser::server::{ConnectedFrameBuilder, MessageFrameBuilder, ServerFrame};
use tokio::sync::mpsc::unbounded_channel;

fn transmitted(step: Step) -> Vec<u8> {
    match step {
        Step::Transmit(bytes) => bytes,
        other => panic!("Nothing to send: {:?}", other),
    }
}

fn wire(frame: ServerFrame) -> Vec<u8> {
    frame.try_into().expect("Serialisation failed")
}

/// A session from the handshake to its end, with the server's side played by hand.
#[test]
fn sends_connect_frame() {
    let result = ClientFrame::try_from(connect_frame("test".to_owned())).expect("Not a frame");
    assert!(matches!(result, ClientFrame::Connect(_)), "Not a Connect frame");

    let reply = wire(ServerFrame::Connected(
        ConnectedFrameBuilder::new(StompVersion::V1_2).build(),
    ));
    conclude_handshake(Some(Ok(reply)))
        .expect("Reply cannot be put into words")
        .expect("Session init failed");

    let (event_sender, mut events) = unbounded_channel();
    let mut session = StompClientSession::new(event_sender);
    let mut event_loop = SessionEventLoop::new();

    let foo_stream = match session.subscribe("foo".to_owned()) {
        Ok(subscribed) => subscribed,
        Err(_) => panic!("Subscribe failed"),
    };
    let handled = event_loop.handle_event(client_event(events.try_recv().ok()));
    let opened = SessionEventLoop::opened_subscription(&handled).expect("Nothing opened");
    let bytes = transmitted(SessionEventLoop::next_step(handled));
    let subscription_id = match ClientFrame::try_from(bytes) {
        Ok(ClientFrame::Subscribe(frame)) => {
            assert_eq!(frame.destination.value(), "foo");
            frame.id.value().to_owned()
        }
        _ => panic!("Not a Subscribe frame"),
    };
    assert_eq!(opened.0, subscription_id);

    let message = wire(ServerFrame::Message(
        MessageFrameBuilder::new("1".into(), "foo".into(), subscription_id.clone())
            .body(b"Hello, world!".to_vec())
            .build(),
    ));
    let handled = event_loop.handle_event(server_event(Some(Ok(message.clone()))));
    assert!(matches!(SessionEventLoop::next_step(handled), Step::Wait));

    let mut foo_receiver = foo_stream.into_inner();
    let received = foo_receiver.try_recv().expect("Stream closed prematurely");
    assert_eq!(received.body.expect("Message has no body"), b"Hello, world!");
    assert_eq!(received.raw, message);

    drop(foo_receiver);
    let handled = event_loop.handle_event(SessionEvent::Unsubscribe(opened));
    let bytes = transmitted(SessionEventLoop::next_step(handled));
    match ClientFrame::try_from(bytes) {
        Ok(ClientFrame::Unsubscribe(frame)) => assert_eq!(frame.id.value(), subscription_id),
        _ => panic!("Not an Unsubscribe frame"),
    }

    assert!(session.send("bar".to_owned(), b"Goodbye, moon!".to_vec()).is_ok(), "Send failed");
    let handled = event_loop.handle_event(client_event(events.try_recv().ok()));
    let bytes = transmitted(SessionEventLoop::next_step(handled));
    match ClientFrame::try_from(bytes) {
        Ok(ClientFrame::Send(frame)) => {
            assert_eq!(frame.destination.value(), "bar");
            assert_eq!(frame.body(), Some(&b"Goodbye, moon!"[..]));
        }
        _ => panic!("Not a Send frame"),
    }

    assert!(session.close().is_ok());
    let handled = event_loop.handle_event(client_event(events.try_recv().ok()));
    assert!(
        matches!(SessionEventLoop::next_step(handled), Step::Stop),
        "Outbound connection not closed"
    );
}

#[test]
fn requests_fail_once_the_loop_is_gone() {
    let (event_sender, events) = unbounded_channel();
    let mut session = StompClientSession::new(event_sender);
    drop(events);
    let expected = "StompClientError: Unable to create subscription";
    match session.send("foo".to_owned(), vec![1, 2, 3]) {
        Ok(_) => panic!("Nobody can take this"),
        Err(error) => assert_eq!(error.debug_text(), expected),
    }
    match session.subscribe("foo".to_owned()) {
        Ok(_) => panic!("Nobody can take this"),
        Err(error) => assert_eq!(error.debug_text(), expected),
    }
    match session.close() {
        Ok(_) => panic!("Nobody can take this"),
        Err(error) => assert_eq!(error.debug_text(), expected),
    }
    match session.send_event(SessionEvent::Disconnected) {
        Ok(_) => panic!("Nobody can take this"),
        Err(error) => assert_eq!(error.debug_text(), expected),
    }
}

#[test]
fn requests_reach_the_loop_in_order() {
    let (event_sender, mut events) = unbounded_channel();
    let mut session = StompClientSession::new(event_sender);
    assert!(session.subscribe("a".to_owned()).is_ok());
    assert!(session.send("b".to_owned(), vec![7]).is_ok());
    assert!(session.close().is_ok());
    match events.try_recv() {
        Ok(SessionEvent::Subscribe(destination, _)) => assert_eq!(destination.0, "a"),
        _ => panic!("Not a request to subscribe"),
    }
    match events.try_recv() {
        Ok(SessionEvent::Send(destination, content)) => {
            assert_eq!(destination.0, "b");
            assert_eq!(content, vec![7]);
        }
        _ => panic!("Not a request to send"),
    }
    assert!(matches!(events.try_recv(), Ok(SessionEvent::Close)));
    assert!(events.try_recv().is_err());
}

#[test]
fn answers_of_the_loop_are_put_into_words() {
    assert!(event_result(Ok(())).is_ok());
    match event_result(Err("whatever".to_owned())) {
        Ok(()) => panic!("Refused"),
        Err(error) => assert_eq!(
            error.debug_text(),
            "StompClientError: Unable to create subscription"
        ),
    }
}

#[test]
fn session_closes_when_nobody_can_ask() {
    assert!(matches!(client_event(None), SessionEvent::Close));
    assert!(matches!(
        client_event(Some(SessionEvent::Disconnected)),
        SessionEvent::Disconnected
    ));
}

#[test]
fn each_stream_yields_the_messages_of_its_own_subscription() {
    let (event_sender, mut events) = unbounded_channel();
    let mut session = StompClientSession::new(event_sender);
    let mut event_loop = SessionEventLoop::new();
    let mut receivers = Vec::new();
    for destination in ["a", "b"] {
        match session.subscribe(destination.to_owned()) {
            Ok(stream) => receivers.push(stream.into_inner()),
            Err(_) => panic!("Subscribe failed"),
        }
        let handled = event_loop.handle_event(client_event(events.try_recv().ok()));
        assert!(handled.is_ok());
    }
    for (id, body) in [("1", "x"), ("0", "y"), ("1", "z")] {
        let message = wire(ServerFrame::Message(
            MessageFrameBuilder::new("1".into(), "d".into(), id.into())
                .body(body.as_bytes().to_vec())
                .build(),
        ));
        assert!(event_loop.handle_event(server_event(Some(Ok(message)))).is_ok());
    }
    let mut bodies = receivers.iter_mut().map(|receiver| {
        let mut received = Vec::new();
        while let Ok(message) = receiver.try_recv() {
            received.extend(message.body.unwrap_or_default());
        }
        received
    });
    assert_eq!(bodies.next(), Some(b"y".to_vec()));
    assert_eq!(bodies.next(), Some(b"xz".to_vec()));
}

#[test]
fn sessions_show_nothing_of_themselves() {
    let (event_sender, _events) = unbounded_channel();
    let session = StompClientSession::new(event_sender);
    assert_eq!(format!("{:?}", session), "StompClientSession");
}
