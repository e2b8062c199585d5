//! The frames that a session sends and receives, as plain values, and their wire form.

use stomp_parser::client::{
    ConnectFrameBuilder, SendFrameBuilder, SubscribeFrameBuilder, UnsubscribeFrameBuilder,
};
use stomp_parser::error::StompParseError;
use stomp_parser::headers::{StompVersion as WireVersion, StompVersions};
use stomp_parser::server::ServerFrame as WireFrame;
use vstd::prelude::*;
use vstd::utf8::{encode_utf8, valid_utf8};

use crate::error::parse_error_message;

verus! {

/// A version of the protocol, as a `CONNECTED` frame announces it.
#[derive(Debug)]
pub enum StompVersion {
    V1_0,
    V1_1,
    V1_2,
    /// Any other text in the place of a version.
    Unknown(String),
}

/// A version of the protocol.
pub enum StompVersionView {
    V1_0,
    V1_1,
    V1_2,
    Unknown(Seq<char>),
}

impl View for StompVersion {
    type V = StompVersionView;

    open spec fn view(&self) -> StompVersionView {
        match self {
            StompVersion::V1_0 => StompVersionView::V1_0,
            StompVersion::V1_1 => StompVersionView::V1_1,
            StompVersion::V1_2 => StompVersionView::V1_2,
            StompVersion::Unknown(name) => StompVersionView::Unknown(name@),
        }
    }
}

impl StompVersionView {
    /// Whether this is one of the versions that the protocol defines.
    pub open spec fn known(self) -> bool {
        !(self is Unknown)
    }

    /// The number of a known version, as headers show it.
    pub open spec fn number(self) -> Seq<char>
        recommends
            self.known(),
    {
        match self {
            StompVersionView::V1_0 => "1.0"@,
            StompVersionView::V1_1 => "1.1"@,
            StompVersionView::V1_2 => "1.2"@,
            StompVersionView::Unknown(_) => arbitrary(),
        }
    }
}

impl StompVersion {
    /// The number of a known version, as headers show it.
    pub fn number(&self) -> (number: &'static str)
        requires
            self@.known(),
        ensures
            number@ == self@.number(),
    {
        match self {
            StompVersion::V1_0 => "1.0",
            StompVersion::V1_1 => "1.1",
            StompVersion::V1_2 => "1.2",
            StompVersion::Unknown(_) => unreached(),
        }
    }
}

/// A message that the server sends for a subscription.
#[derive(Debug)]
pub struct MessageFrame {
    /// The subscription that the message is for.
    pub subscription: String,
    /// The content of the message.
    pub body: Option<Vec<u8>>,
    /// The whole frame as it was received.
    pub raw: Vec<u8>,
}

/// A message that the server sends for a subscription.
pub struct MessageFrameView {
    pub subscription: Seq<char>,
    pub body: Option<Seq<u8>>,
    pub raw: Seq<u8>,
}

/// What an optional body holds.
pub open spec fn body_view(body: Option<Vec<u8>>) -> Option<Seq<u8>> {
    match body {
        Some(bytes) => Some(bytes@),
        None => None,
    }
}

impl View for MessageFrame {
    type V = MessageFrameView;

    open spec fn view(&self) -> MessageFrameView {
        MessageFrameView {
            subscription: self.subscription@,
            body: body_view(self.body),
            raw: self.raw@,
        }
    }
}

/// A frame that the server sends.
#[derive(Debug)]
pub enum ServerFrame {
    /// The session is established, in this version of the protocol.
    Connected(StompVersion),
    /// A request has been processed.
    Receipt,
    /// The server reports an error, with this explanation.
    Error(Option<Vec<u8>>),
    /// A message for a subscription.
    Message(MessageFrame),
}

/// A frame that the server sends.
pub enum ServerFrameView {
    Connected(StompVersionView),
    Receipt,
    Error(Option<Seq<u8>>),
    Message(MessageFrameView),
}

impl View for ServerFrame {
    type V = ServerFrameView;

    open spec fn view(&self) -> ServerFrameView {
        match self {
            ServerFrame::Connected(version) => ServerFrameView::Connected(version@),
            ServerFrame::Receipt => ServerFrameView::Receipt,
            ServerFrame::Error(body) => ServerFrameView::Error(body_view(*body)),
            ServerFrame::Message(message) => ServerFrameView::Message(message@),
        }
    }
}

/// What `stomp_parser` makes of bytes from the server: a frame, or why they are none.
pub uninterp spec fn server_frame(bytes: Seq<u8>) -> Result<ServerFrameView, Seq<char>>;

/// `stomp_parser::server::ServerFrame::try_from`, with the frame taken apart.
///
/// The outcome is a function of the bytes. A `MESSAGE` frame keeps the bytes that it was read
/// from.
#[verifier::external_body]
pub(crate) fn parse_server_frame(bytes: Vec<u8>) -> (parsed: Result<ServerFrame, StompParseError>)
    ensures
        match parsed {
            Ok(frame) => server_frame(bytes@) == Ok::<ServerFrameView, Seq<char>>(frame@),
            Err(error) => server_frame(bytes@) == Err::<ServerFrameView, Seq<char>>(
                parse_error_message(error),
            ),
        },
        parsed matches Ok(ServerFrame::Message(message)) ==> message.raw@ == bytes@,
{
    Ok(match WireFrame::try_from(bytes)? {
        WireFrame::Connected(frame) => ServerFrame::Connected(match frame.version.value() {
            WireVersion::V1_0 => StompVersion::V1_0,
            WireVersion::V1_1 => StompVersion::V1_1,
            WireVersion::V1_2 => StompVersion::V1_2,
            WireVersion::Unknown(name) => StompVersion::Unknown(name.clone()),
        }),
        WireFrame::Receipt(_) => ServerFrame::Receipt,
        WireFrame::Error(frame) => ServerFrame::Error(frame.body().map(Vec::from)),
        WireFrame::Message(frame) => ServerFrame::Message(MessageFrame {
            subscription: frame.subscription.value().to_owned(),
            body: frame.body().map(Vec::from),
            raw: frame.try_into()?,
        }),
    })
}

impl ServerFrameView {
    /// Whether the body of the frame, if it has one, is text.
    pub open spec fn printable(self) -> bool {
        match self {
            ServerFrameView::Error(Some(body)) => valid_utf8(body),
            ServerFrameView::Message(message) => message.body matches Some(body) ==> valid_utf8(
                body,
            ),
            _ => true,
        }
    }
}

/// `std::str::from_utf8` succeeds on exactly the bytes that are UTF-8.
#[verifier::external_body]
fn is_utf8(bytes: &[u8]) -> (valid: bool)
    ensures
        valid == valid_utf8(bytes@),
{
    std::str::from_utf8(bytes).is_ok()
}

impl ServerFrame {
    /// Whether the body of the frame, if it has one, is text.
    pub fn printable(&self) -> (printable: bool)
        ensures
            printable == self@.printable(),
    {
        match self {
            ServerFrame::Error(Some(body)) => is_utf8(body.as_slice()),
            ServerFrame::Message(message) => match &message.body {
                Some(body) => is_utf8(body.as_slice()),
                None => true,
            },
            _ => true,
        }
    }
}

/// The text that `stomp_parser` displays the frame in `bytes` with.
pub uninterp spec fn server_frame_text(bytes: Seq<u8>) -> Seq<char>;

/// The `Display` of `stomp_parser::server::ServerFrame`, on the frame that the bytes hold.
///
/// The text is a function of the bytes. The display fails on an unknown version, and copies a
/// body as if it were text: `requires` leaves both out.
#[verifier::external_body]
pub(crate) fn display_server_frame(bytes: Vec<u8>) -> (text: String)
    requires
        server_frame(bytes@) matches Ok(frame) && frame.printable() && !(frame is Connected),
    ensures
        text@ == server_frame_text(bytes@),
{
    match WireFrame::try_from(bytes) {
        Ok(frame) => frame.to_string(),
        Err(error) => error.message().to_owned(),
    }
}

/// A frame that the client sends once the session is established.
#[derive(Debug)]
pub enum ClientFrame {
    /// Asks for the messages of a destination, under an id.
    Subscribe { destination: String, id: String },
    /// Ends the subscription with this id.
    Unsubscribe { id: String },
    /// Sends a message to a destination.
    Send { destination: String, body: Vec<u8> },
}

/// A frame that the client sends once the session is established.
pub enum ClientFrameView {
    Subscribe { destination: Seq<char>, id: Seq<char> },
    Unsubscribe { id: Seq<char> },
    Send { destination: Seq<char>, body: Seq<u8> },
}

impl View for ClientFrame {
    type V = ClientFrameView;

    open spec fn view(&self) -> ClientFrameView {
        match self {
            ClientFrame::Subscribe { destination, id } => ClientFrameView::Subscribe {
                destination: destination@,
                id: id@,
            },
            ClientFrame::Unsubscribe { id } => ClientFrameView::Unsubscribe { id: id@ },
            ClientFrame::Send { destination, body } => ClientFrameView::Send {
                destination: destination@,
                body: body@,
            },
        }
    }
}

/// The wire form of a frame: its command and headers, each on a line, an empty line, its body,
/// and a zero.
pub open spec fn frame_bytes(head: Seq<char>, body: Seq<u8>) -> Seq<u8> {
    encode_utf8(head + "\n"@) + body + seq![0u8]
}

/// The bytes of a `CONNECT` frame that asks `host` for one known version, without heart-beats.
pub open spec fn connect_bytes(host: Seq<char>, version: StompVersionView) -> Seq<u8>
    recommends
        version.known(),
{
    frame_bytes(
        "CONNECT\nhost:"@ + host + "\naccept-version:"@ + version.number()
            + "\nheart-beat:0,0\n"@,
        Seq::empty(),
    )
}

impl ClientFrameView {
    /// The command and headers of this frame. The values of headers stand there as they are.
    pub open spec fn head(self) -> Seq<char> {
        match self {
            ClientFrameView::Subscribe { destination, id } => "SUBSCRIBE\ndestination:"@
                + destination + "\nid:"@ + id + "\nack:auto\n"@,
            ClientFrameView::Unsubscribe { id } => "UNSUBSCRIBE\nid:"@ + id + "\n"@,
            ClientFrameView::Send { destination, .. } => "SEND\ndestination:"@ + destination
                + "\n"@,
        }
    }

    /// The body of this frame.
    pub open spec fn body(self) -> Seq<u8> {
        match self {
            ClientFrameView::Send { body, .. } => body,
            _ => Seq::empty(),
        }
    }

    /// The bytes of this frame.
    pub open spec fn bytes(self) -> Seq<u8> {
        frame_bytes(self.head(), self.body())
    }
}

/// Builds a `CONNECT` frame with `stomp_parser::client::ConnectFrameBuilder` and serialises it.
///
/// The builder writes the host as it is, and the heart-beat intervals that it starts with. It
/// cannot write an unknown version: `requires` leaves that out.
#[verifier::external_body]
fn build_connect(host: String, version: StompVersion) -> (bytes: Vec<u8>)
    requires
        version@.known(),
    ensures
        bytes@ == connect_bytes(host@, version@),
{
    let accepted = match version {
        StompVersion::V1_0 => WireVersion::V1_0,
        StompVersion::V1_1 => WireVersion::V1_1,
        StompVersion::V1_2 => WireVersion::V1_2,
        StompVersion::Unknown(name) => WireVersion::Unknown(name),
    };
    let frame = ConnectFrameBuilder::new(host, StompVersions(vec![accepted])).build();
    frame.try_into().unwrap()
}

/// Builds a `SUBSCRIBE` frame with `stomp_parser::client::SubscribeFrameBuilder` and serialises
/// it.
///
/// The builder writes destination and id as they are, and the acknowledgement mode that it
/// starts with.
#[verifier::external_body]
fn build_subscribe(destination: String, id: String) -> (bytes: Vec<u8>)
    ensures
        bytes@ == (ClientFrameView::Subscribe { destination: destination@, id: id@ }).bytes(),
{
    SubscribeFrameBuilder::new(destination, id).build().try_into().unwrap()
}

/// Builds an `UNSUBSCRIBE` frame with `stomp_parser::client::UnsubscribeFrameBuilder` and
/// serialises it. The builder writes the id as it is.
#[verifier::external_body]
fn build_unsubscribe(id: String) -> (bytes: Vec<u8>)
    ensures
        bytes@ == (ClientFrameView::Unsubscribe { id: id@ }).bytes(),
{
    UnsubscribeFrameBuilder::new(id).build().try_into().unwrap()
}

/// Builds a `SEND` frame with `stomp_parser::client::SendFrameBuilder` and serialises it.
///
/// The builder writes destination and body as they are, and no header but the destination.
#[verifier::external_body]
fn build_send(destination: String, body: Vec<u8>) -> (bytes: Vec<u8>)
    ensures
        bytes@ == (ClientFrameView::Send { destination: destination@, body: body@ }).bytes(),
{
    SendFrameBuilder::new(destination).body(body).build().try_into().unwrap()
}

/// The `CONNECT` frame that opens a session with `host_id`, in version 1.2 of the protocol.
pub fn connect_frame(host_id: String) -> (bytes: Vec<u8>)
    ensures
        bytes@ == connect_bytes(host_id@, StompVersionView::V1_2),
{
    build_connect(host_id, StompVersion::V1_2)
}

impl ClientFrame {
    /// The wire form of this frame.
    pub fn into_bytes(self) -> (bytes: Vec<u8>)
        ensures
            bytes@ == self@.bytes(),
    {
        match self {
            ClientFrame::Subscribe { destination, id } => build_subscribe(destination, id),
            ClientFrame::Unsubscribe { id } => build_unsubscribe(id),
            ClientFrame::Send { destination, body } => build_send(destination, body),
        }
    }
}

} // verus!
