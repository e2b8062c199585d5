use stomp_client::error::StompClientError;
use stomp_client::event_loop::{
    delivery_result, handled_delivery, is_heartbeat, message_event, missing_subscription,
    parse_server_message, server_event, unknown_subscription,
    DestinationId, EventResult, MessageToServer, SessionEvent, SessionEventLoop, SessionState,
    Step, SubscriptionId,
};
use stomp_client::frames::{ClientFrame, MessageFrame, ServerFrame, StompVersion};
use tokio::sync::mpsc::{unbounded_channel, UnboundedReceiver};

fn subscribe(event_loop: &mut SessionEventLoop, destination: &str) -> UnboundedReceiver<MessageFrame> {
    let (sender, receiver) = unbounded_channel();
    let event = SessionEvent::Subscribe(DestinationId(destination.to_owned()), sender);
    assert!(event_loop.handle_event(event).is_ok());
    receiver
}

fn unsubscribe(id: &str) -> SessionEvent {
    SessionEvent::Unsubscribe(SubscriptionId(id.to_owned()))
}

fn message(subscription: &str, body: &[u8]) -> SessionEvent {
    SessionEvent::ServerFrame(Ok(ServerFrame::Message(MessageFrame {
        subscription: subscription.to_owned(),
        body: Some(body.to_vec()),
        raw: Vec::new(),
    })))
}

fn failure(result: EventResult) -> String {
    match result {
        Ok(_) => panic!("No failure"),
        Err(error) => error.debug_text(),
    }
}

fn sent(event_loop: &mut SessionEventLoop, event: SessionEvent) -> Vec<u8> {
    match SessionEventLoop::next_step(event_loop.handle_event(event)) {
        Step::Transmit(bytes) => bytes,
        other => panic!("Nothing to send: {:?}", other),
    }
}

#[test]
fn subscribing_sends_a_frame_with_the_next_number() {
    let mut event_loop = SessionEventLoop::new();
    for n in 0..12 {
        let (sender, _receiver) = unbounded_channel();
        let event = SessionEvent::Subscribe(DestinationId("foo".to_owned()), sender);
        assert_eq!(
            sent(&mut event_loop, event),
            format!("SUBSCRIBE\ndestination:foo\nid:{}\nack:auto\n\n\u{0}", n).into_bytes()
        );
    }
}

#[test]
fn subscribing_reports_what_it_opened() {
    let mut event_loop = SessionEventLoop::new();
    let (sender, _receiver) = unbounded_channel();
    let result = event_loop.subscribe(DestinationId("foo".to_owned()), sender);
    assert_eq!(
        SessionEventLoop::opened_subscription(&result),
        Some(SubscriptionId("0".to_owned()))
    );
    match result {
        Ok((
            SessionState::Alive,
            Some(MessageToServer::ClientFrame(ClientFrame::Subscribe { destination, id })),
        )) => {
            assert_eq!(destination, "foo");
            assert_eq!(id, "0");
        }
        other => panic!("{:?}", other),
    }
    let ended = event_loop.unsubscribe(SubscriptionId("0".to_owned()));
    assert_eq!(SessionEventLoop::opened_subscription(&ended), None);
}

#[test]
fn messages_go_to_their_subscription() {
    let mut event_loop = SessionEventLoop::new();
    let mut first = subscribe(&mut event_loop, "a");
    let mut second = subscribe(&mut event_loop, "b");
    let handled = event_loop.handle_event(message("1", b"for the second"));
    assert!(matches!(handled, Ok((SessionState::Alive, None))));
    assert!(first.try_recv().is_err());
    let received = second.try_recv().expect("Not delivered");
    assert_eq!(received.subscription, "1");
    assert_eq!(received.body, Some(b"for the second".to_vec()));
    assert!(event_loop.handle_event(message("0", b"for the first")).is_ok());
    assert_eq!(
        first.try_recv().expect("Not delivered").body,
        Some(b"for the first".to_vec())
    );
}

#[test]
fn messages_without_subscription_are_refused() {
    let mut event_loop = SessionEventLoop::new();
    let _receiver = subscribe(&mut event_loop, "a");
    let handled = event_loop.handle_event(message("7", b"lost"));
    assert_eq!(
        failure(handled),
        "StompClientError: Received message for unknown subscription 7"
    );
}

#[test]
fn messages_are_refused_once_the_subscriber_is_gone() {
    let mut event_loop = SessionEventLoop::new();
    drop(subscribe(&mut event_loop, "a"));
    let handled = event_loop.handle_event(message("0", b"late"));
    assert_eq!(
        failure(handled),
        "StompClientError: error sending message to handler: channel closed"
    );
}

#[test]
fn answers_of_subscribers_are_put_into_words() {
    assert!(delivery_result(Ok(())).is_ok());
    match delivery_result(Err("shut".to_owned())) {
        Ok(()) => panic!("Refused"),
        Err(error) => assert_eq!(
            error.debug_text(),
            "StompClientError: error sending message to handler: shut"
        ),
    }
}

#[test]
fn unsubscribing_ends_a_subscription_once() {
    let mut event_loop = SessionEventLoop::new();
    let _receiver = subscribe(&mut event_loop, "a");
    assert_eq!(
        sent(&mut event_loop, unsubscribe("0")),
        b"UNSUBSCRIBE\nid:0\n\n\x00"
    );
    assert_eq!(
        failure(event_loop.handle_event(message("0", b"late"))),
        "StompClientError: Received message for unknown subscription 0"
    );
    assert_eq!(
        failure(event_loop.handle_event(unsubscribe("0"))),
        "StompClientError: Tried to remove missing subscription SubscriptionId(\"0\")"
    );
}

#[test]
fn missing_subscriptions_are_quoted() {
    let mut event_loop = SessionEventLoop::new();
    assert_eq!(
        failure(event_loop.unsubscribe(SubscriptionId("a\"b\n".to_owned()))),
        format!(
            "StompClientError: Tried to remove missing subscription {:?}",
            SubscriptionId("a\"b\n".to_owned())
        )
    );
}

#[test]
fn unsubscribing_undoes_subscribing() {
    let mut event_loop = SessionEventLoop::new();
    let mut first = subscribe(&mut event_loop, "a");
    let _second = subscribe(&mut event_loop, "b");
    assert!(event_loop.handle_event(unsubscribe("1")).is_ok());
    assert!(event_loop.handle_event(message("0", b"still here")).is_ok());
    assert!(first.try_recv().is_ok());
    let (sender, _receiver) = unbounded_channel();
    let event = SessionEvent::Subscribe(DestinationId("c".to_owned()), sender);
    assert_eq!(
        sent(&mut event_loop, event),
        b"SUBSCRIBE\ndestination:c\nid:1\nack:auto\n\n\x00"
    );
}

#[test]
fn a_number_in_use_is_taken_over_after_a_gap() {
    let mut event_loop = SessionEventLoop::new();
    let _first = subscribe(&mut event_loop, "a");
    let mut second = subscribe(&mut event_loop, "b");
    assert!(event_loop.handle_event(unsubscribe("0")).is_ok());
    let mut third = subscribe(&mut event_loop, "c");
    assert!(event_loop.handle_event(message("1", b"whose")).is_ok());
    assert!(second.try_recv().is_err());
    assert!(third.try_recv().is_ok());
}

#[test]
fn sending_writes_destination_and_content() {
    let mut event_loop = SessionEventLoop::new();
    let event = SessionEvent::Send(DestinationId("bar".to_owned()), vec![0, 255, 10, 0]);
    assert_eq!(
        sent(&mut event_loop, event),
        b"SEND\ndestination:bar\n\n\x00\xff\x0a\x00\x00"
    );
    let result = event_loop.send(DestinationId("bar".to_owned()), Vec::new());
    match SessionEventLoop::into_opt_ok_of_bytes(result) {
        Some(Ok(bytes)) => assert_eq!(bytes, b"SEND\ndestination:bar\n\n\x00"),
        _ => panic!("Nothing to send"),
    }
}

#[test]
fn errors_are_survived_in_silence() {
    let mut event_loop = SessionEventLoop::new();
    let event = SessionEvent::ServerFrame(Err(StompClientError::new("garbled")));
    let result = event_loop.handle_event(event);
    assert!(SessionEventLoop::not_dead(&result));
    assert_eq!(failure(result), "StompClientError: garbled");
    let failed: EventResult = Err(StompClientError::new("garbled"));
    assert!(matches!(SessionEventLoop::next_step(failed), Step::Wait));
    let failed: EventResult = Err(StompClientError::new("garbled"));
    assert!(SessionEventLoop::into_opt_ok_of_bytes(failed).is_none());
}

#[test]
fn close_and_disconnect_end_the_session() {
    let mut event_loop = SessionEventLoop::new();
    for event in vec![SessionEvent::Close, SessionEvent::Disconnected] {
        let result = event_loop.handle_event(event);
        assert!(!SessionEventLoop::not_dead(&result));
        assert!(matches!(SessionEventLoop::next_step(result), Step::Stop));
    }
    let last_words: EventResult = Ok((SessionState::Dead, Some(MessageToServer::Heartbeat)));
    assert!(matches!(SessionEventLoop::next_step(last_words), Step::Stop));
}

#[test]
fn heartbeat_to_the_server_is_a_line_feed() {
    let result: EventResult = Ok((SessionState::Alive, Some(MessageToServer::Heartbeat)));
    match SessionEventLoop::next_step(result) {
        Step::Transmit(bytes) => {
            assert_eq!(bytes, b"\n");
            assert!(is_heartbeat(&bytes));
        }
        other => panic!("{:?}", other),
    }
}

#[test]
fn heartbeats_are_empty_lines() {
    assert!(is_heartbeat(b"\n"));
    assert!(is_heartbeat(b"\r\n"));
    assert!(!is_heartbeat(b""));
    assert!(!is_heartbeat(b"\r"));
    assert!(!is_heartbeat(b"\n\n"));
    assert!(!is_heartbeat(b"\n\r"));
    assert!(!is_heartbeat(b"x"));
    assert!(!is_heartbeat(&MessageToServer::ClientFrame(ClientFrame::Unsubscribe {
        id: String::new()
    }).into_bytes()));
}

#[test]
fn bytes_from_the_server_become_events() {
    assert!(matches!(server_event(None), SessionEvent::Disconnected));
    assert!(matches!(
        server_event(Some(Ok(b"\r\n".to_vec()))),
        SessionEvent::ServerHeartBeat
    ));
    match server_event(Some(Err(StompClientError::new("reset")))) {
        SessionEvent::ServerFrame(Err(error)) => {
            assert_eq!(error.debug_text(), "StompClientError: reset")
        }
        other => panic!("{:?}", other),
    }
    match server_event(Some(Ok(b"NOPE\n\n\x00".to_vec()))) {
        SessionEvent::ServerFrame(Err(error)) => {
            assert_eq!(error.debug_text(), "StompClientError: Unknown command NOPE")
        }
        other => panic!("{:?}", other),
    }
    let bytes =
        b"MESSAGE\nmessage-id:1\ndestination:a\nsubscription:4\ncolour:red\n\n\x01\x00\x02\x00";
    match server_event(Some(Ok(bytes.to_vec()))) {
        SessionEvent::ServerFrame(Ok(ServerFrame::Message(message))) => {
            assert_eq!(message.subscription, "4");
            assert_eq!(message.body, Some(vec![1, 0, 2]));
            assert_eq!(message.raw, bytes);
        }
        other => panic!("{:?}", other),
    }
    match server_event(Some(Ok(b"CONNECTED\nversion:1.2\n\n\x00".to_vec()))) {
        SessionEvent::ServerFrame(Ok(ServerFrame::Connected(StompVersion::V1_2))) => {}
        other => panic!("{:?}", other),
    }
}

#[test]
fn messages_from_the_server_are_parsed() {
    assert!(matches!(parse_server_message(b"\n".to_vec()), Ok(None)));
    assert!(matches!(
        parse_server_message(b"RECEIPT\nreceipt-id:3\n\n\x00".to_vec()),
        Ok(Some(ServerFrame::Receipt))
    ));
    match parse_server_message(b"ERROR\n\nwhy\x00".to_vec()) {
        Ok(Some(ServerFrame::Error(body))) => assert_eq!(body, Some(b"why".to_vec())),
        other => panic!("{:?}", other),
    }
    match message_event(parse_server_message(b"\x00".to_vec())) {
        SessionEvent::ServerFrame(Err(error)) => {
            assert_eq!(error.debug_text(), "StompClientError: Error parsing frame")
        }
        other => panic!("{:?}", other),
    }
}

#[test]
fn some_events_are_not_supported() {
    assert!(!SessionEvent::ServerHeartBeat.supported());
    assert!(!SessionEvent::ServerFrame(Ok(ServerFrame::Receipt)).supported());
    assert!(!SessionEvent::ServerFrame(Ok(ServerFrame::Error(None))).supported());
    assert!(!SessionEvent::ServerFrame(Ok(ServerFrame::Connected(StompVersion::V1_2))).supported());
    assert!(message("0", b"").supported());
    assert!(SessionEvent::ServerFrame(Err(StompClientError::new("x"))).supported());
    assert!(SessionEvent::Close.supported());
    assert!(SessionEvent::Disconnected.supported());
    assert!(unsubscribe("0").supported());
}

#[test]
fn events_have_names() {
    let (sender, _receiver) = unbounded_channel();
    assert_eq!(SessionEvent::Subscribe(DestinationId("a".to_owned()), sender).name(), "Subscribe");
    assert_eq!(unsubscribe("0").name(), "Unsubscribe");
    assert_eq!(SessionEvent::Send(DestinationId("a".to_owned()), Vec::new()).name(), "Send");
    assert_eq!(message("0", b"").name(), "ServerFrame");
    assert_eq!(SessionEvent::ServerHeartBeat.name(), "ServerHeartBeat");
    assert_eq!(SessionEvent::Close.name(), "Close");
    assert_eq!(SessionEvent::Disconnected.name(), "Disconnected");
    assert_eq!(format!("{:?}", unsubscribe("0")), "Unsubscribe");
    assert_eq!(format!("{:?}", message("0", b"secret")), "ServerFrame");
}

#[test]
fn nothing_is_sent_after_the_end() {
    let mut event_loop = SessionEventLoop::new();
    let mut transcript = Vec::new();
    let request = |body: u8| SessionEvent::Send(DestinationId("d".to_owned()), vec![body]);
    for event in vec![request(1), unsubscribe("9"), request(2), SessionEvent::Close, request(3)] {
        match SessionEventLoop::next_step(event_loop.handle_event(event)) {
            Step::Stop => break,
            Step::Wait => {}
            Step::Transmit(bytes) => transcript.push(bytes),
        }
    }
    assert_eq!(
        transcript,
        vec![
            b"SEND\ndestination:d\n\n\x01\x00".to_vec(),
            b"SEND\ndestination:d\n\n\x02\x00".to_vec(),
        ]
    );
}

#[test]
fn deliveries_decide_the_outcome_of_a_message() {
    let frame = |subscription: &str| MessageFrame {
        subscription: subscription.to_owned(),
        body: None,
        raw: Vec::new(),
    };
    assert!(matches!(handled_delivery(Ok(())), Ok((SessionState::Alive, None))));
    let refused = handled_delivery(Err(StompClientError::new("why not")));
    assert_eq!(failure(refused), "StompClientError: why not");

    let mut event_loop = SessionEventLoop::new();
    let mut receiver = subscribe(&mut event_loop, "a");
    assert!(event_loop.forward_message(frame("0")).is_ok());
    assert!(receiver.try_recv().is_ok());
    assert!(receiver.try_recv().is_err());
    let lost = event_loop.handle_server_frame(ServerFrame::Message(frame("1")));
    let forwarded = handled_delivery(event_loop.forward_message(frame("1")));
    assert_eq!(failure(lost), failure(forwarded));
}

#[test]
fn a_message_is_delivered_once_and_to_one_subscriber() {
    let mut event_loop = SessionEventLoop::new();
    let mut first = subscribe(&mut event_loop, "foo");
    let mut second = subscribe(&mut event_loop, "foo");
    let forwarded = event_loop.forward_message(MessageFrame {
        subscription: "1".to_owned(),
        body: Some(b"Hello, world!".to_vec()),
        raw: Vec::new(),
    });
    assert!(forwarded.is_ok());
    let received = second.try_recv().expect("Not delivered");
    assert_eq!(received.body, Some(b"Hello, world!".to_vec()));
    assert!(second.try_recv().is_err());
    assert!(first.try_recv().is_err());
}

#[test]
fn the_others_stay_when_a_subscription_ends() {
    let mut event_loop = SessionEventLoop::new();
    let mut receivers: Vec<_> = (0..5).map(|_| subscribe(&mut event_loop, "a")).collect();
    for id in ["1", "4", "0"] {
        assert!(event_loop.handle_event(unsubscribe(id)).is_ok());
    }
    for id in ["0", "1", "2", "3", "4"] {
        let open = id == "2" || id == "3";
        assert_eq!(event_loop.handle_event(message(id, id.as_bytes())).is_ok(), open);
    }
    for (id, receiver) in receivers.iter_mut().enumerate() {
        match receiver.try_recv() {
            Ok(received) => assert_eq!(received.subscription, id.to_string()),
            Err(_) => assert!(id != 2 && id != 3),
        }
        assert!(receiver.try_recv().is_err());
    }
}

#[test]
fn the_channel_of_an_ended_subscription_is_closed() {
    let mut event_loop = SessionEventLoop::new();
    let mut receiver = subscribe(&mut event_loop, "a");
    let _other = subscribe(&mut event_loop, "b");
    assert!(event_loop.handle_event(message("0", b"last words")).is_ok());
    assert!(event_loop.handle_event(unsubscribe("0")).is_ok());
    assert!(receiver.blocking_recv().is_some());
    assert!(receiver.blocking_recv().is_none());
}

#[test]
fn missing_subscriptions_are_named_as_they_are_shown() {
    assert_eq!(
        missing_subscription("<7>").debug_text(),
        "StompClientError: Tried to remove missing subscription SubscriptionId(<7>)"
    );
    assert_eq!(
        unknown_subscription("7").debug_text(),
        "StompClientError: Received message for unknown subscription 7"
    );
}

#[test]
fn a_stream_from_the_server_ends_with_the_loss_of_the_connection() {
    let items = vec![
        Ok(b"\n".to_vec()),
        Err(StompClientError::new("reset")),
        Ok(b"RECEIPT\nreceipt-id:3\n\n\x00".to_vec()),
    ];
    let stream = items.into_iter().map(Some).chain(vec![None]);
    let events: Vec<SessionEvent> = stream.map(server_event).collect();
    assert_eq!(
        format!("{:?}", events),
        "[ServerHeartBeat, ServerFrame, ServerFrame, Disconnected]"
    );
}

#[test]
fn requests_are_handled_as_by_direct_calls() {
    let mut by_event = SessionEventLoop::new();
    let mut by_call = SessionEventLoop::new();
    let (sender, _receiver) = unbounded_channel();
    let called = by_call.subscribe(DestinationId("a".to_owned()), sender.clone());
    let handled = by_event.handle_event(SessionEvent::Subscribe(DestinationId("a".to_owned()), sender));
    assert_eq!(format!("{:?}", called), format!("{:?}", handled));
    let called = by_call.send(DestinationId("b".to_owned()), vec![1]);
    let handled = by_event.handle_event(SessionEvent::Send(DestinationId("b".to_owned()), vec![1]));
    assert_eq!(format!("{:?}", called), format!("{:?}", handled));
    for id in ["0", "0"] {
        let called = by_call.unsubscribe(SubscriptionId(id.to_owned()));
        let handled = by_event.handle_event(unsubscribe(id));
        assert_eq!(format!("{:?}", called), format!("{:?}", handled));
    }
}
