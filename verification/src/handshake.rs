//! The opening of a session: the client asks for it, and the server's first reply decides.

use vstd::prelude::*;
use vstd::string::*;

use crate::error::StompClientError;
use crate::frames::{
    display_server_frame, parse_server_frame, server_frame, server_frame_text, ServerFrame,
    ServerFrameView, StompVersion, StompVersionView,
};
use crate::text::{lossy_text, read_lossily};

verus! {

/// What the server's first reply says.
#[derive(Debug)]
pub enum HandshakeReply {
    /// It accepts the session, in this version of the protocol.
    Connected(StompVersion),
    /// It is another frame, which reads like this.
    Other(String),
    /// It is no frame.
    Unreadable(StompClientError),
}

/// What the server's first reply says.
pub enum HandshakeReplyView {
    Connected(StompVersionView),
    Other(Seq<char>),
    Unreadable(Seq<char>),
}

impl View for HandshakeReply {
    type V = HandshakeReplyView;

    open spec fn view(&self) -> HandshakeReplyView {
        match self {
            HandshakeReply::Connected(version) => HandshakeReplyView::Connected(version@),
            HandshakeReply::Other(text) => HandshakeReplyView::Other(text@),
            HandshakeReply::Unreadable(error) => HandshakeReplyView::Unreadable(error@),
        }
    }
}

/// What the server says with its first bytes. Another frame is read as the parser displays it, or
/// as it came if its body is not text, with what is no text replaced.
pub open spec fn handshake_reply(bytes: Seq<u8>) -> HandshakeReplyView {
    match server_frame(bytes) {
        Err(message) => HandshakeReplyView::Unreadable(message),
        Ok(ServerFrameView::Connected(version)) => HandshakeReplyView::Connected(version),
        Ok(frame) => HandshakeReplyView::Other(
            if frame.printable() {
                server_frame_text(bytes)
            } else {
                lossy_text(bytes)
            },
        ),
    }
}

impl HandshakeReplyView {
    /// Whether this reply can be put into words: an unknown version cannot.
    pub open spec fn printable(self) -> bool {
        self matches HandshakeReplyView::Connected(version) ==> version.known()
    }

    /// The verdict on this reply: the session is established in version 1.2, or why it is not.
    pub open spec fn verdict(self) -> Result<(), Seq<char>>
        recommends
            self.printable(),
    {
        match self {
            HandshakeReplyView::Connected(StompVersionView::V1_2) => Ok(()),
            HandshakeReplyView::Connected(version) => Err(
                "Handshake failed, server replied with invalid StompVersion: version:"@
                    + version.number(),
            ),
            HandshakeReplyView::Other(text) => Err(
                "Handshake failed, expected CONNECTED Frame, received: "@ + text,
            ),
            HandshakeReplyView::Unreadable(message) => Err(message),
        }
    }
}

/// A verdict, with errors taken by their message.
pub open spec fn verdict_view(verdict: Result<(), StompClientError>) -> Result<(), Seq<char>> {
    match verdict {
        Ok(()) => Ok(()),
        Err(error) => Err(error@),
    }
}

/// Reads the first bytes from the server.
pub fn read_handshake_reply(bytes: Vec<u8>) -> (reply: HandshakeReply)
    ensures
        reply@ == handshake_reply(bytes@),
{
    match parse_server_frame(bytes.clone()) {
        Err(error) => HandshakeReply::Unreadable(StompClientError::from(error)),
        Ok(ServerFrame::Connected(version)) => HandshakeReply::Connected(version),
        Ok(frame) => HandshakeReply::Other(
            if frame.printable() {
                display_server_frame(bytes)
            } else {
                read_lossily(bytes.as_slice())
            },
        ),
    }
}

impl HandshakeReply {
    /// Whether this reply can be put into words: an unknown version cannot.
    pub fn printable(&self) -> (printable: bool)
        ensures
            printable == self@.printable(),
    {
        !matches!(self, HandshakeReply::Connected(StompVersion::Unknown(_)))
    }

    /// The verdict on this reply: the session is established in version 1.2, or why it is not.
    pub fn verdict(self) -> (verdict: Result<(), StompClientError>)
        requires
            self@.printable(),
        ensures
            verdict_view(verdict) == self@.verdict(),
    {
        match self {
            HandshakeReply::Connected(StompVersion::V1_2) => Ok(()),
            HandshakeReply::Connected(version) => Err(
                StompClientError::new(
                    "Handshake failed, server replied with invalid StompVersion: version:".to_owned(

                    ).concat(version.number()),
                ),
            ),
            HandshakeReply::Other(text) => Err(
                StompClientError::new(
                    "Handshake failed, expected CONNECTED Frame, received: ".to_owned().concat(
                        text.as_str(),
                    ),
                ),
            ),
            HandshakeReply::Unreadable(error) => Err(error),
        }
    }
}

/// Decides on the server's reply, which has to be one that can be put into words.
pub fn validate_handshake(response: Option<Vec<u8>>) -> (verdict: Result<(), StompClientError>)
    requires
        response matches Some(bytes) ==> handshake_reply(bytes@).printable(),
    ensures
        verdict_view(verdict) == (match response {
            None => Err("Expected Some bytes"@),
            Some(bytes) => handshake_reply(bytes@).verdict(),
        }),
{
    match response {
        None => Err(StompClientError::new("Expected Some bytes")),
        Some(bytes) => read_handshake_reply(bytes).verdict(),
    }
}

/// Decides on what the stream from the server yields first: a reply, an error of the connection,
/// or its end. There is no verdict on a reply that cannot be put into words; the reply is read
/// first to find out.
pub fn conclude_handshake(first: Option<Result<Vec<u8>, StompClientError>>) -> (concluded: Option<
    Result<(), StompClientError>,
>)
    ensures
        match first {
            None => concluded matches Some(verdict) && verdict_view(verdict) == Err::<(), _>(
                "Stream from server ended before handshake"@,
            ),
            Some(Err(error)) => concluded == Some(Err::<(), _>(error)),
            Some(Ok(bytes)) => match concluded {
                Some(verdict) => handshake_reply(bytes@).printable() && verdict_view(verdict)
                    == handshake_reply(bytes@).verdict(),
                None => !handshake_reply(bytes@).printable(),
            },
        },
{
    match first {
        None => Some(Err(StompClientError::new("Stream from server ended before handshake"))),
        Some(Err(client_err)) => Some(Err(client_err)),
        Some(Ok(bytes)) => {
            if read_handshake_reply(bytes.clone()).printable() {
                Some(validate_handshake(Some(bytes)))
            } else {
                None
            }
        },
    }
}

} // verus!
