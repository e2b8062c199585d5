use stomp_client::error::StompClientError;
use stomp_client::frames::{connect_frame, StompVersion};
use stomp_client::handshake::{
    conclude_handshake, read_handshake_reply, validate_handshake, HandshakeReply,
};
use stomp_parser::server::{ErrorFrame, ServerFrame};

fn failure(verdict: Result<(), StompClientError>) -> String {
    match verdict {
        Ok(()) => panic!("No failure"),
        Err(error) => error.debug_text(),
    }
}

fn concluded(bytes: &[u8]) -> Result<(), StompClientError> {
    match conclude_handshake(Some(Ok(bytes.to_vec()))) {
        Some(verdict) => verdict,
        None => panic!("Cannot be put into words"),
    }
}

#[test]
fn connect_frame_asks_for_version_1_2() {
    assert_eq!(
        connect_frame("test".to_owned()),
        b"CONNECT\nhost:test\naccept-version:1.2\nheart-beat:0,0\n\n\x00"
    );
}

#[test]
fn connect_frame_takes_any_host() {
    assert_eq!(
        connect_frame("h\u{e4}st".to_owned()),
        "CONNECT\nhost:h\u{e4}st\naccept-version:1.2\nheart-beat:0,0\n\n\u{0}".as_bytes()
    );
}

#[test]
fn version_1_2_is_accepted() {
    assert!(concluded(b"CONNECTED\nversion:1.2\n\n\x00").is_ok());
    assert!(validate_handshake(Some(b"CONNECTED\nversion:1.2\n\n\x00".to_vec())).is_ok());
}

#[test]
fn other_versions_are_refused() {
    assert_eq!(
        failure(concluded(b"CONNECTED\nversion:1.1\n\n\x00")),
        "StompClientError: Handshake failed, server replied with invalid StompVersion: version:1.1"
    );
    assert_eq!(
        failure(concluded(b"CONNECTED\nversion:1.0\n\n\x00")),
        "StompClientError: Handshake failed, server replied with invalid StompVersion: version:1.0"
    );
}

#[test]
fn other_frames_are_refused_with_their_text() {
    let frame = ServerFrame::Error(ErrorFrame::from_message("no entry"));
    let text = frame.to_string();
    let bytes: Vec<u8> = frame.try_into().expect("Serialisation failed");
    assert_eq!(text, "ERROR\nmessage:no entry\n\n\u{0}");
    assert_eq!(
        failure(concluded(&bytes)),
        format!(
            "StompClientError: Handshake failed, expected CONNECTED Frame, received: {}",
            text
        )
    );
    assert_eq!(
        failure(concluded(b"RECEIPT\nreceipt-id:12\n\n\x00")),
        "StompClientError: Handshake failed, expected CONNECTED Frame, received: RECEIPT\nreceipt-id:12\n\n\u{0}"
    );
    assert_eq!(
        failure(concluded(
            b"MESSAGE\nmessage-id:1\ndestination:a\nsubscription:0\n\nhi\x00"
        )),
        "StompClientError: Handshake failed, expected CONNECTED Frame, received: MESSAGE\nmessage-id:1\ndestination:a\nsubscription:0\n\nhi\u{0}"
    );
}

#[test]
fn unreadable_replies_are_refused() {
    assert_eq!(failure(concluded(b"")), "StompClientError: Error parsing frame");
    assert_eq!(
        failure(concluded(b"HELLO\n\n\x00")),
        "StompClientError: Unknown command HELLO"
    );
    assert_eq!(
        failure(concluded(b"CONNECTED\n\n\x00")),
        "StompClientError: Error parsing frame"
    );
}

#[test]
fn no_reply_is_refused() {
    assert_eq!(
        failure(validate_handshake(None)),
        "StompClientError: Expected Some bytes"
    );
    assert_eq!(
        failure(conclude_handshake(None).expect("Words enough")),
        "StompClientError: Stream from server ended before handshake"
    );
}

#[test]
fn errors_of_the_connection_are_passed_on() {
    let broken = Some(Err(StompClientError::new("broken pipe")));
    assert_eq!(
        failure(conclude_handshake(broken).expect("Words enough")),
        "StompClientError: broken pipe"
    );
}

#[test]
fn some_replies_cannot_be_put_into_words() {
    assert!(conclude_handshake(Some(Ok(b"CONNECTED\nversion:9.9\n\n\x00".to_vec()))).is_none());
}

#[test]
fn frames_that_are_no_text_are_refused_as_they_came() {
    assert_eq!(
        failure(concluded(b"ERROR\n\nno\xff\xfe\x00")),
        "StompClientError: Handshake failed, expected CONNECTED Frame, received: ERROR\n\nno\u{fffd}\u{fffd}\u{0}"
    );
    assert_eq!(
        failure(validate_handshake(Some(
            b"MESSAGE\nmessage-id:1\ndestination:a\nsubscription:0\n\n\x80\x00".to_vec()
        ))),
        "StompClientError: Handshake failed, expected CONNECTED Frame, received: MESSAGE\nmessage-id:1\ndestination:a\nsubscription:0\n\n\u{fffd}\u{0}"
    );
}

#[test]
fn replies_are_read() {
    match read_handshake_reply(b"CONNECTED\nversion:9.9\n\n\x00".to_vec()) {
        HandshakeReply::Connected(StompVersion::Unknown(name)) => assert_eq!(name, "9.9"),
        other => panic!("{:?}", other),
    }
    match read_handshake_reply(b"CONNECTED\nversion:1.0\n\n\x00".to_vec()) {
        HandshakeReply::Connected(StompVersion::V1_0) => {}
        other => panic!("{:?}", other),
    }
    match read_handshake_reply(b"ERROR\n\noops\x00".to_vec()) {
        HandshakeReply::Other(text) => assert_eq!(text, "ERROR\n\noops\u{0}"),
        other => panic!("{:?}", other),
    }
    match read_handshake_reply(b"ERROR\n\n\x80\x00".to_vec()) {
        HandshakeReply::Other(text) => assert_eq!(text, "ERROR\n\n\u{fffd}\u{0}"),
        other => panic!("{:?}", other),
    }
    match read_handshake_reply(b"?".to_vec()) {
        HandshakeReply::Unreadable(error) => {
            assert_eq!(error.debug_text(), "StompClientError: Error parsing frame")
        }
        other => panic!("{:?}", other),
    }
}

#[test]
fn verdicts_follow_the_reply() {
    assert!(HandshakeReply::Connected(StompVersion::V1_2).verdict().is_ok());
    assert_eq!(
        failure(HandshakeReply::Connected(StompVersion::V1_1).verdict()),
        "StompClientError: Handshake failed, server replied with invalid StompVersion: version:1.1"
    );
    assert_eq!(
        failure(HandshakeReply::Other("X".to_owned()).verdict()),
        "StompClientError: Handshake failed, expected CONNECTED Frame, received: X"
    );
    assert_eq!(
        failure(HandshakeReply::Unreadable(StompClientError::new("why")).verdict()),
        "StompClientError: why"
    );
    assert!(!HandshakeReply::Connected(StompVersion::Unknown("2".to_owned())).printable());
    assert!(HandshakeReply::Connected(StompVersion::V1_0).printable());
    assert!(HandshakeReply::Other("X".to_owned()).printable());
}
