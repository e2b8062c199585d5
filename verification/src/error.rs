//! The error that every fallible operation of a session reports.

use sender_sink::wrappers::SinkError;
use stomp_parser::error::StompParseError;
use vstd::prelude::*;
use vstd::std_specs::convert::FromSpecImpl;
use vstd::string::*;

use crate::text::shown;

verus! {

/// `sender_sink::wrappers::SinkError`: why a sink over a channel refused an item.
#[verifier::external_type_specification]
pub struct ExSinkError(SinkError);

/// `stomp_parser::error::StompParseError`: why bytes are not a frame.
#[verifier::external_type_specification]
#[verifier::external_body]
pub struct ExStompParseError(StompParseError);

/// The message that a `StompParseError` was made with.
pub uninterp spec fn parse_error_message(error: StompParseError) -> Seq<char>;

/// `StompParseError::message` hands out the message that the error holds.
pub assume_specification[ StompParseError::message ](error: &StompParseError) -> (message: &str)
    ensures
        message@ == parse_error_message(*error),
;

/// `String::from` on a `&str` copies its characters.
pub assume_specification<'a>[ <String as From<&'a str>>::from ](s: &str) -> (string: String)
    ensures
        string@ == s@,
;

/// The conversion of a value into its own type returns the value unchanged.
pub assume_specification<U>[ <U as From<U>>::from ](value: U) -> (same: U)
    ensures
        same == value,
;

/// What went wrong in a session, in words.
pub struct StompClientError {
    message: String,
}

impl View for StompClientError {
    type V = Seq<char>;

    closed spec fn view(&self) -> Seq<char> {
        self.message@
    }
}

/// The words that a sink's error is reported with: the name of its variant.
pub open spec fn sink_error_text(source: SinkError) -> Seq<char> {
    match source {
        SinkError::ChannelClosed => "ChannelClosed"@,
        SinkError::SendFailed => "SendFailed"@,
    }
}

impl StompClientError {
    /// An error with the given message.
    pub fn new<T: Into<String>>(message: T) -> (error: Self)
        ensures
            exists|text: String| #[trigger]
                call_ensures(T::into, (message,), text) && error@ == text@,
    {
        StompClientError { message: message.into() }
    }

    /// The line that a log shows for this error.
    pub fn debug_text(&self) -> (text: String)
        ensures
            text@ == "StompClientError: "@ + self@,
    {
        "StompClientError: ".to_owned().concat(self.message.as_str())
    }
}

impl std::fmt::Debug for StompClientError {
    /// Shows the error as a log does.
    fn fmt(&self, f: &mut std::fmt::Formatter<'_>) -> (written: std::fmt::Result)
        ensures
            written is Ok ==> shown(final(f)) == shown(old(f)) + ("StompClientError: "@ + self@),
    {
        f.write_str(self.debug_text().as_str())
    }
}

impl From<StompParseError> for StompClientError {
    /// The error of a session whose peer sent something that is not a frame.
    fn from(cause: StompParseError) -> (error: Self)
        ensures
            error@ == parse_error_message(cause),
    {
        StompClientError::new(cause.message())
    }
}

/// The contract of the conversion is its own: it speaks of the message, not of the value.
impl FromSpecImpl<StompParseError> for StompClientError {
    open spec fn obeys_from_spec() -> bool {
        false
    }

    open spec fn from_spec(v: StompParseError) -> Self {
        arbitrary()
    }
}

impl From<SinkError> for StompClientError {
    /// The error of a session whose outgoing channel refused a message.
    fn from(source: SinkError) -> (error: Self)
        ensures
            error@ == sink_error_text(source),
    {
        StompClientError::new(
            match source {
                SinkError::ChannelClosed => "ChannelClosed",
                SinkError::SendFailed => "SendFailed",
            },
        )
    }
}

/// The contract of the conversion is its own: it speaks of the message, not of the value.
impl FromSpecImpl<SinkError> for StompClientError {
    open spec fn obeys_from_spec() -> bool {
        false
    }

    open spec fn from_spec(v: SinkError) -> Self {
        arbitrary()
    }
}

} // verus!
