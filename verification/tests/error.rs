use sender_sink::wrappers::SinkError;
use stomp_client::error::StompClientError;
use stomp_client::text::to_decimal;
use stomp_parser::error::StompParseError;

#[test]
fn errors_are_made_from_text() {
    assert_eq!(StompClientError::new("abc").debug_text(), "StompClientError: abc");
    assert_eq!(
        StompClientError::new("abc".to_owned()).debug_text(),
        "StompClientError: abc"
    );
    assert_eq!(StompClientError::new("").debug_text(), "StompClientError: ");
}

#[test]
fn parse_errors_keep_their_message() {
    let error: StompClientError = StompParseError::new("not a frame").into();
    assert_eq!(error.debug_text(), "StompClientError: not a frame");
}

#[test]
fn sink_errors_are_named() {
    for source in vec![SinkError::ChannelClosed, SinkError::SendFailed] {
        let expected = format!("StompClientError: {:?}", source);
        assert_eq!(StompClientError::from(source).debug_text(), expected);
    }
    assert_eq!(
        StompClientError::from(SinkError::ChannelClosed).debug_text(),
        "StompClientError: ChannelClosed"
    );
}

#[test]
fn decimals_are_those_of_the_standard_library() {
    for n in vec![0, 7, 9, 10, 11, 99, 100, 1234567890, usize::MAX] {
        assert_eq!(to_decimal(n), n.to_string());
    }
}

#[test]
fn errors_are_shown_as_in_logs() {
    let error = StompClientError::new("quote \" and\nline");
    assert_eq!(format!("{:?}", error), "StompClientError: quote \" and\nline");
    assert_eq!(format!("{:?}", error), error.debug_text());
    assert_eq!(format!("{:#?}", error), error.debug_text());
}
