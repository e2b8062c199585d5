//! What each operation does, from what it is given to what comes out, for all inputs.
//!
//! Every law here speaks of calls: of their arguments and results, and of the states before and
//! after them. Frames and errors are written out.

use sender_sink::wrappers::SinkError;
use stomp_parser::error::StompParseError;
use tokio::sync::mpsc::UnboundedSender;
use vstd::prelude::*;
use vstd::utf8::{encode_utf8, valid_utf8};

use crate::channel::{joined, source_of, Outlet, OutletView};
use crate::error::{parse_error_message, StompClientError};
use crate::event_loop::{
    client_event, delivery_result, handled_delivery, is_heartbeat, message_event,
    missing_subscription, parse_server_message, server_event, unknown_subscription, DestinationId,
    EventResult, MessageToServer, SessionEvent, SessionEventLoop, SessionEventView, SessionState,
    Step, SubscriptionId,
};
use crate::frames::{
    connect_frame, server_frame, server_frame_text, ClientFrame, ClientFrameView, MessageFrame,
    MessageFrameView, ServerFrame, ServerFrameView, StompVersion, StompVersionView,
};
use crate::handshake::{
    conclude_handshake, read_handshake_reply, validate_handshake, HandshakeReply,
};
use crate::laws::{connecting_is_written_out, frames_are_written_out};
use crate::session::{event_result, IncomingMessageStream, StompClientSession};
use crate::table::{Subscribers, Subscriptions};
use crate::text::{decimal, lossy_text, quoted, to_decimal};

verus! {

/// The frame that opens a session names the host and asks for version 1.2 alone.
pub proof fn connecting_asks_for_version_1_2(host: String, bytes: Vec<u8>)
    requires
        call_ensures(connect_frame, (host,), bytes),
    ensures
        bytes@ == encode_utf8(
            "CONNECT\nhost:"@ + host@ + "\naccept-version:1.2\nheart-beat:0,0\n\n"@,
        ) + seq![0u8],
{
    connecting_is_written_out(host@);
}

/// A `SUBSCRIBE` frame names the destination and the id, and wants no acknowledgements.
pub proof fn subscribe_frames_name_destination_and_id(
    destination: String,
    id: String,
    bytes: Vec<u8>,
)
    requires
        call_ensures(
            ClientFrame::into_bytes,
            (ClientFrame::Subscribe { destination, id },),
            bytes,
        ),
    ensures
        bytes@ == encode_utf8(
            "SUBSCRIBE\ndestination:"@ + destination@ + "\nid:"@ + id@ + "\nack:auto\n\n"@,
        ) + seq![0u8],
{
    frames_are_written_out((ClientFrame::Subscribe { destination, id })@);
}

/// An `UNSUBSCRIBE` frame names the id.
pub proof fn unsubscribe_frames_name_the_id(id: String, bytes: Vec<u8>)
    requires
        call_ensures(ClientFrame::into_bytes, (ClientFrame::Unsubscribe { id },), bytes),
    ensures
        bytes@ == encode_utf8("UNSUBSCRIBE\nid:"@ + id@ + "\n\n"@) + seq![0u8],
{
    frames_are_written_out((ClientFrame::Unsubscribe { id })@);
}

/// A `SEND` frame names the destination and holds the whole content.
pub proof fn send_frames_hold_the_content(destination: String, body: Vec<u8>, bytes: Vec<u8>)
    requires
        call_ensures(ClientFrame::into_bytes, (ClientFrame::Send { destination, body },), bytes),
    ensures
        bytes@ == encode_utf8("SEND\ndestination:"@ + destination@ + "\n\n"@) + body@ + seq![0u8],
{
    frames_are_written_out((ClientFrame::Send { destination, body })@);
}

/// The wire form of a frame is the same whether it is taken alone or as a message to the server. A
/// heart-beat is a line feed.
pub proof fn messages_to_the_server_are_frames_or_line_feeds(
    frame: ClientFrame,
    alone: Vec<u8>,
    bytes: Vec<u8>,
    beat: Vec<u8>,
)
    requires
        call_ensures(ClientFrame::into_bytes, (frame,), alone),
        call_ensures(MessageToServer::into_bytes, (MessageToServer::ClientFrame(frame),), bytes),
        call_ensures(MessageToServer::into_bytes, (MessageToServer::Heartbeat,), beat),
    ensures
        bytes@ == alone@,
        beat@ == seq![10u8],
{
}

/// After an outcome, the session ends if and only if the outcome says that it is dead; errors do
/// not end it. What is sent is the message of a living outcome, and nothing else.
pub proof fn steps_follow_the_outcome(
    result: EventResult,
    goes_on: bool,
    bytes: Option<Result<Vec<u8>, StompClientError>>,
    step: Step,
)
    requires
        call_ensures(SessionEventLoop::not_dead, (&result,), goes_on),
        call_ensures(SessionEventLoop::into_opt_ok_of_bytes, (result,), bytes),
        call_ensures(SessionEventLoop::next_step, (result,), step),
    ensures
        goes_on <==> !(result matches Ok((SessionState::Dead, _))),
        bytes is Some <==> result matches Ok((_, Some(_))),
        bytes matches Some(written) ==> written is Ok,
        match result {
            Ok((SessionState::Dead, _)) => step is Stop,
            Ok((SessionState::Alive, Some(_))) => {
                &&& step matches Step::Transmit(sent)
                &&& bytes matches Some(Ok(written))
                &&& sent@ == written@
            },
            _ => step is Wait,
        },
{
}

/// The bytes that are sent for an outcome are the wire form of its message.
pub proof fn outcomes_are_sent_in_wire_form(
    state: SessionState,
    message: MessageToServer,
    wire: Vec<u8>,
    bytes: Option<Result<Vec<u8>, StompClientError>>,
)
    requires
        call_ensures(MessageToServer::into_bytes, (message,), wire),
        call_ensures(
            SessionEventLoop::into_opt_ok_of_bytes,
            (EventResult::Ok((state, Some(message))),),
            bytes,
        ),
    ensures
        bytes matches Some(Ok(written)) && written@ == wire@,
{
}

/// A new event loop has no subscriptions.
pub proof fn new_loops_are_empty(event_loop: SessionEventLoop)
    requires
        call_ensures(SessionEventLoop::new, (), event_loop),
    ensures
        event_loop@ == Subscriptions::empty(),
{
}

/// A request to subscribe opens a subscription on the given channel, under the number of open ones,
/// and the server is asked for that destination under that id.
pub proof fn subscribing_opens_and_asks(
    event_loop: &mut SessionEventLoop,
    destination: DestinationId,
    sender: UnboundedSender<MessageFrame>,
    result: EventResult,
    opened: Option<SubscriptionId>,
    step: Step,
)
    requires
        call_ensures(
            SessionEventLoop::handle_event,
            (event_loop, SessionEvent::Subscribe(destination, sender)),
            result,
        ) || call_ensures(SessionEventLoop::subscribe, (event_loop, destination, sender), result),
        call_ensures(SessionEventLoop::opened_subscription, (&result,), opened),
        call_ensures(SessionEventLoop::next_step, (result,), step),
    ensures
        final(event_loop)@ == old(event_loop)@.insert(
            decimal(old(event_loop)@.len()),
            OutletView { sender, taken: Seq::empty(), refused: Seq::empty() },
        ),
        opened matches Some(id) && id.0@ == decimal(old(event_loop)@.len()),
        step matches Step::Transmit(bytes) && bytes@ == encode_utf8(
            "SUBSCRIBE\ndestination:"@ + destination.0@ + "\nid:"@ + decimal(
                old(event_loop)@.len(),
            ) + "\nack:auto\n\n"@,
        ) + seq![0u8],
{
    frames_are_written_out(
        ClientFrameView::Subscribe {
            destination: destination.0@,
            id: decimal(old(event_loop)@.len()),
        },
    );
}

/// The end of a subscription closes it, and the server is told so. It is an error if it is not
/// open, and then nothing changes and nothing is sent.
pub proof fn unsubscribing_ends_and_tells(
    event_loop: &mut SessionEventLoop,
    subscription: SubscriptionId,
    result: EventResult,
    opened: Option<SubscriptionId>,
    step: Step,
)
    requires
        call_ensures(
            SessionEventLoop::handle_event,
            (event_loop, SessionEvent::Unsubscribe(subscription)),
            result,
        ) || call_ensures(SessionEventLoop::unsubscribe, (event_loop, subscription), result),
        call_ensures(SessionEventLoop::opened_subscription, (&result,), opened),
        call_ensures(SessionEventLoop::next_step, (result,), step),
    ensures
        final(event_loop)@ == old(event_loop)@.remove(subscription.0@),
        opened is None,
        if old(event_loop)@.contains_key(subscription.0@) {
            step matches Step::Transmit(bytes) && bytes@ == encode_utf8(
                "UNSUBSCRIBE\nid:"@ + subscription.0@ + "\n\n"@,
            ) + seq![0u8]
        } else {
            &&& step is Wait
            &&& result matches Err(error)
            &&& error@ == "Tried to remove missing subscription SubscriptionId("@ + quoted(
                subscription.0@,
            ) + ")"@
        },
{
    frames_are_written_out(ClientFrameView::Unsubscribe { id: subscription.0@ });
}

/// A request to send leaves the subscriptions as they are, and the server is sent the whole content
/// for that destination.
pub proof fn sending_transmits_the_content(
    event_loop: &mut SessionEventLoop,
    destination: DestinationId,
    content: Vec<u8>,
    result: EventResult,
    opened: Option<SubscriptionId>,
    step: Step,
)
    requires
        call_ensures(
            SessionEventLoop::handle_event,
            (event_loop, SessionEvent::Send(destination, content)),
            result,
        ) || call_ensures(SessionEventLoop::send, (event_loop, destination, content), result),
        call_ensures(SessionEventLoop::opened_subscription, (&result,), opened),
        call_ensures(SessionEventLoop::next_step, (result,), step),
    ensures
        final(event_loop)@ == old(event_loop)@,
        opened is None,
        step matches Step::Transmit(bytes) && bytes@ == encode_utf8(
            "SEND\ndestination:"@ + destination.0@ + "\n\n"@,
        ) + content@ + seq![0u8],
{
    frames_are_written_out(
        ClientFrameView::Send { destination: destination.0@, body: content@ },
    );
}

/// The client's close and the loss of the connection end the session, without a word.
pub proof fn closing_stops(
    event_loop: &mut SessionEventLoop,
    event: SessionEvent,
    result: EventResult,
    step: Step,
)
    requires
        event is Close || event is Disconnected,
        call_ensures(SessionEventLoop::handle_event, (event_loop, event), result),
        call_ensures(SessionEventLoop::next_step, (result,), step),
    ensures
        final(event_loop)@ == old(event_loop)@,
        result is Ok,
        step is Stop,
{
}

/// An error from the server is reported as it is. Nothing changes, and the session goes on.
pub proof fn server_errors_are_reported(
    event_loop: &mut SessionEventLoop,
    error: StompClientError,
    result: EventResult,
    step: Step,
)
    requires
        call_ensures(
            SessionEventLoop::handle_event,
            (event_loop, SessionEvent::ServerFrame(Err(error))),
            result,
        ),
        call_ensures(SessionEventLoop::next_step, (result,), step),
    ensures
        final(event_loop)@ == old(event_loop)@,
        result matches Err(reported) && reported@ == error@,
        step is Wait,
{
}

/// A message is handed, whole and once, to the channel of the subscription that it is for, and to no
/// other. The outcome is good exactly if the channel takes it.
pub proof fn messages_are_forwarded(
    event_loop: &mut SessionEventLoop,
    frame: MessageFrame,
    forwarded: Result<(), StompClientError>,
)
    requires
        call_ensures(SessionEventLoop::forward_message, (event_loop, frame), forwarded),
    ensures
        ({
            let id = frame.subscription@;
            let before = old(event_loop)@;
            let after = final(event_loop)@;
            if !before.contains_key(id) {
                &&& after == before
                &&& forwarded matches Err(error)
                &&& error@ == "Received message for unknown subscription "@ + id
            } else {
                &&& after.dom() == before.dom()
                &&& after.remove(id) == before.remove(id)
                &&& after[id].sender == before[id].sender
                &&& match forwarded {
                    Ok(()) => after[id].taken == before[id].taken.push(frame@) && after[id].refused
                        == before[id].refused,
                    Err(error) => {
                        &&& after[id].taken == before[id].taken
                        &&& after[id].refused == before[id].refused.push(frame@)
                        &&& error@ == "error sending message to handler: channel closed"@
                    },
                }
            }
        }),
{
    reveal_strlit("error sending message to handler: ");
    reveal_strlit("channel closed");
    reveal_strlit("error sending message to handler: channel closed");
    assert("error sending message to handler: "@ + "channel closed"@
        =~= "error sending message to handler: channel closed"@);
    let id = frame.subscription@;
    let before = old(event_loop)@;
    let after = final(event_loop)@;
    if before.contains_key(id) {
        assert(after.dom() =~= before.dom());
        assert(after.remove(id) =~= before.remove(id));
    }
}

/// The event of a message is handled as the message is forwarded, by whichever way it comes: the
/// subscriptions end up as after a forwarded message with the same fate. Nothing is sent to the
/// server, and the session goes on.
pub proof fn message_events_are_forwarded(
    event_loop: &mut SessionEventLoop,
    frame: MessageFrame,
    result: EventResult,
    opened: Option<SubscriptionId>,
    step: Step,
)
    requires
        call_ensures(
            SessionEventLoop::handle_event,
            (event_loop, SessionEvent::ServerFrame(Ok(ServerFrame::Message(frame)))),
            result,
        ) || call_ensures(
            SessionEventLoop::handle_server_frame,
            (event_loop, ServerFrame::Message(frame)),
            result,
        ),
        call_ensures(SessionEventLoop::opened_subscription, (&result,), opened),
        call_ensures(SessionEventLoop::next_step, (result,), step),
    ensures
        step is Wait,
        opened is None,
        ({
            let id = frame.subscription@;
            let before = old(event_loop)@;
            let after = final(event_loop)@;
            if !before.contains_key(id) {
                &&& after == before
                &&& result matches Err(error)
                &&& error@ == "Received message for unknown subscription "@ + id
            } else {
                &&& after.dom() == before.dom()
                &&& after.remove(id) == before.remove(id)
                &&& after[id].sender == before[id].sender
                &&& match result {
                    Ok((state, message)) => {
                        &&& state == SessionState::Alive
                        &&& message is None
                        &&& after[id].taken == before[id].taken.push(frame@)
                        &&& after[id].refused == before[id].refused
                    },
                    Err(error) => {
                        &&& after[id].taken == before[id].taken
                        &&& after[id].refused == before[id].refused.push(frame@)
                        &&& error@ == "error sending message to handler: channel closed"@
                    },
                }
            }
        }),
{
    reveal_strlit("error sending message to handler: ");
    reveal_strlit("channel closed");
    reveal_strlit("error sending message to handler: channel closed");
    assert("error sending message to handler: "@ + "channel closed"@
        =~= "error sending message to handler: channel closed"@);
    let id = frame.subscription@;
    let before = old(event_loop)@;
    let after = final(event_loop)@;
    if before.contains_key(id) {
        assert(after.dom() =~= before.dom());
        assert(after.remove(id) =~= before.remove(id));
    }
}

/// The loop takes every event but heart-beats and frames that are no messages, and it says so.
pub proof fn loops_take_all_but_heartbeats_and_other_frames(
    event_loop: &mut SessionEventLoop,
    event: SessionEvent,
    supported: bool,
)
    requires
        call_ensures(SessionEvent::supported, (&event,), supported),
    ensures
        supported <==> match event {
            SessionEvent::ServerHeartBeat => false,
            SessionEvent::ServerFrame(Ok(frame)) => frame is Message,
            _ => true,
        },
        supported ==> call_requires(SessionEventLoop::handle_event, (event_loop, event)),
        event matches SessionEvent::ServerFrame(Ok(frame)) ==> (supported ==> call_requires(
            SessionEventLoop::handle_server_frame,
            (event_loop, frame),
        )),
{
}

/// Bytes from the server are a heart-beat exactly if they are an empty line.
pub proof fn heartbeats_are_empty_lines(bytes: &[u8], beat: bool)
    requires
        call_ensures(is_heartbeat, (bytes,), beat),
    ensures
        beat <==> bytes@ == seq![10u8] || bytes@ == seq![13u8, 10u8],
{
}

/// Bytes from the server that are no empty line are what the parser says, as it says it, and a
/// message keeps the bytes that it was read from.
pub proof fn server_bytes_are_parsed(
    bytes: Vec<u8>,
    parsed: Result<Option<ServerFrame>, StompClientError>,
)
    requires
        call_ensures(parse_server_message, (bytes,), parsed),
    ensures
        if bytes@ == seq![10u8] || bytes@ == seq![13u8, 10u8] {
            parsed matches Ok(None)
        } else {
            match server_frame(bytes@) {
                Ok(frame) => parsed matches Ok(Some(read)) && read@ == frame,
                Err(message) => parsed matches Err(error) && error@ == message,
            }
        },
        parsed matches Ok(Some(ServerFrame::Message(message))) ==> message.raw@ == bytes@,
{
}

/// What was made of bytes from the server becomes an event without a change.
pub proof fn parsed_messages_become_events(
    parsed: Result<Option<ServerFrame>, StompClientError>,
    event: SessionEvent,
)
    requires
        call_ensures(message_event, (parsed,), event),
    ensures
        match parsed {
            Ok(None) => event is ServerHeartBeat,
            Ok(Some(frame)) => event matches SessionEvent::ServerFrame(Ok(same)) && same@ == frame@,
            Err(error) => event matches SessionEvent::ServerFrame(Err(same)) && same@ == error@,
        },
{
}

/// What the stream from the server yields becomes an event: bytes are what the parser says of them,
/// unless they are an empty line; an error is passed on; and the end is the loss of the connection.
pub proof fn server_items_become_events(
    next: Option<Result<Vec<u8>, StompClientError>>,
    event: SessionEvent,
)
    requires
        call_ensures(server_event, (next,), event),
    ensures
        match next {
            None => event is Disconnected,
            Some(Err(error)) => event matches SessionEvent::ServerFrame(Err(same)) && same@
                == error@,
            Some(Ok(bytes)) => if bytes@ == seq![10u8] || bytes@ == seq![13u8, 10u8] {
                event is ServerHeartBeat
            } else {
                match server_frame(bytes@) {
                    Ok(frame) => event matches SessionEvent::ServerFrame(Ok(read)) && read@
                        == frame,
                    Err(message) => event matches SessionEvent::ServerFrame(Err(error)) && error@
                        == message,
                }
            },
        },
        event matches SessionEvent::ServerFrame(Ok(ServerFrame::Message(message))) ==> next matches
            Some(Ok(bytes)) && message.raw@ == bytes@,
{
}

/// What the client asks for becomes the event that it is, and the end of the client closes the
/// session.
pub proof fn client_items_become_events(next: Option<SessionEvent>, event: SessionEvent)
    requires
        call_ensures(client_event, (next,), event),
    ensures
        match next {
            Some(asked) => event == asked,
            None => event is Close,
        },
{
}

/// Bytes from the server that the parser reads as a message for an open subscription reach the
/// channel of that subscription whole: the message is the one that the parser read, with the bytes
/// that it came in. It reaches no other channel, and the session goes on.
pub proof fn received_bytes_reach_the_channel(
    event_loop: &mut SessionEventLoop,
    bytes: Vec<u8>,
    message: MessageFrameView,
    event: SessionEvent,
    result: EventResult,
    step: Step,
)
    requires
        server_frame(bytes@) == Ok::<ServerFrameView, Seq<char>>(ServerFrameView::Message(message)),
        bytes@ != seq![10u8],
        bytes@ != seq![13u8, 10u8],
        old(event_loop)@.contains_key(message.subscription),
        call_ensures(server_event, (Some(Ok::<_, StompClientError>(bytes)),), event),
        call_ensures(SessionEventLoop::handle_event, (event_loop, event), result),
        call_ensures(SessionEventLoop::next_step, (result,), step),
    ensures
        call_requires(SessionEventLoop::handle_event, (event_loop, event)),
        message.raw == bytes@,
        step is Wait,
        ({
            let id = message.subscription;
            let before = old(event_loop)@;
            let after = final(event_loop)@;
            &&& after.dom() == before.dom()
            &&& after.remove(id) == before.remove(id)
            &&& after[id].sender == before[id].sender
            &&& if result is Ok {
                &&& after[id].taken == before[id].taken.push(message)
                &&& after[id].refused == before[id].refused
            } else {
                &&& after[id].taken == before[id].taken
                &&& after[id].refused == before[id].refused.push(message)
            }
        }),
{
    let id = message.subscription;
    let before = old(event_loop)@;
    let after = final(event_loop)@;
    assert(after.dom() =~= before.dom());
    assert(after.remove(id) =~= before.remove(id));
}

/// The answer of a subscriber's channel, and what came of forwarding a message, are passed on: good
/// stays good, and an error keeps its words.
pub proof fn answers_of_subscribers_are_passed_on(
    answer: Result<(), String>,
    delivered: Result<(), StompClientError>,
    forwarded: Result<(), StompClientError>,
    result: EventResult,
)
    requires
        call_ensures(delivery_result, (answer,), delivered),
        call_ensures(handled_delivery, (forwarded,), result),
    ensures
        match answer {
            Ok(()) => delivered is Ok,
            Err(refusal) => delivered matches Err(error) && error@
                == "error sending message to handler: "@ + refusal@,
        },
        match forwarded {
            Ok(()) => result == EventResult::Ok((SessionState::Alive, None)),
            Err(error) => result == EventResult::Err(error),
        },
{
}

/// The errors for subscriptions that are not open name them.
pub proof fn missing_subscriptions_are_named(
    text: &str,
    missing: StompClientError,
    unknown: StompClientError,
)
    requires
        call_ensures(missing_subscription, (text,), missing),
        call_ensures(unknown_subscription, (text,), unknown),
    ensures
        missing@ == "Tried to remove missing subscription SubscriptionId("@ + text@ + ")"@,
        unknown@ == "Received message for unknown subscription "@ + text@,
{
}

/// The handshake succeeds exactly if the server's first reply is a `CONNECTED` frame for version
/// 1.2, whatever else the frame says. Every other end of it is an error that says why, but for a
/// `CONNECTED` frame for an unknown version, on which there is no verdict.
pub proof fn handshakes_succeed_with_version_1_2(
    first: Option<Result<Vec<u8>, StompClientError>>,
    concluded: Option<Result<(), StompClientError>>,
)
    requires
        call_ensures(conclude_handshake, (first,), concluded),
    ensures
        match first {
            None => concluded matches Some(Err(error)) && error@
                == "Stream from server ended before handshake"@,
            Some(Err(failure)) => concluded matches Some(Err(error)) && error@ == failure@,
            Some(Ok(bytes)) => match server_frame(bytes@) {
                Err(message) => concluded matches Some(Err(error)) && error@ == message,
                Ok(ServerFrameView::Connected(StompVersionView::V1_2)) => concluded matches Some(
                    Ok(()),
                ),
                Ok(ServerFrameView::Connected(StompVersionView::V1_1)) => concluded matches Some(
                    Err(error),
                ) && error@
                    == "Handshake failed, server replied with invalid StompVersion: version:1.1"@,
                Ok(ServerFrameView::Connected(StompVersionView::V1_0)) => concluded matches Some(
                    Err(error),
                ) && error@
                    == "Handshake failed, server replied with invalid StompVersion: version:1.0"@,
                Ok(ServerFrameView::Connected(StompVersionView::Unknown(_))) => concluded is None,
                Ok(frame) => concluded matches Some(Err(error)) && error@
                    == "Handshake failed, expected CONNECTED Frame, received: "@ + (match frame {
                    ServerFrameView::Error(Some(body)) => if valid_utf8(body) {
                        server_frame_text(bytes@)
                    } else {
                        lossy_text(bytes@)
                    },
                    ServerFrameView::Message(message) => match message.body {
                        Some(body) => if valid_utf8(body) {
                            server_frame_text(bytes@)
                        } else {
                            lossy_text(bytes@)
                        },
                        None => server_frame_text(bytes@),
                    },
                    _ => server_frame_text(bytes@),
                }),
            },
        },
{
    versions_are_written_out();
}

proof fn versions_are_written_out()
    ensures
        "Handshake failed, server replied with invalid StompVersion: version:"@ + "1.1"@
            == "Handshake failed, server replied with invalid StompVersion: version:1.1"@,
        "Handshake failed, server replied with invalid StompVersion: version:"@ + "1.0"@
            == "Handshake failed, server replied with invalid StompVersion: version:1.0"@,
{
    reveal_strlit("1.0");
    reveal_strlit("1.1");
    reveal_strlit("Handshake failed, server replied with invalid StompVersion: version:");
    reveal_strlit("Handshake failed, server replied with invalid StompVersion: version:1.0");
    reveal_strlit("Handshake failed, server replied with invalid StompVersion: version:1.1");
    assert("Handshake failed, server replied with invalid StompVersion: version:"@ + "1.1"@
        =~= "Handshake failed, server replied with invalid StompVersion: version:1.1"@);
    assert("Handshake failed, server replied with invalid StompVersion: version:"@ + "1.0"@
        =~= "Handshake failed, server replied with invalid StompVersion: version:1.0"@);
}

/// A reply is validated whenever it is not a `CONNECTED` frame for an unknown version, and the
/// verdict is the one that the handshake concludes with. No reply is an error.
pub proof fn replies_are_validated(
    bytes: Vec<u8>,
    concluded: Option<Result<(), StompClientError>>,
    verdict: Result<(), StompClientError>,
    silence: Result<(), StompClientError>,
)
    requires
        call_ensures(
            conclude_handshake,
            (Some(Ok::<_, StompClientError>(bytes)),),
            concluded,
        ),
        call_ensures(validate_handshake, (Some(bytes),), verdict),
        call_ensures(validate_handshake, (None::<Vec<u8>>,), silence),
    ensures
        call_requires(validate_handshake, (None::<Vec<u8>>,)),
        silence matches Err(error) && error@ == "Expected Some bytes"@,
        !(server_frame(bytes@) matches Ok(
            ServerFrameView::Connected(StompVersionView::Unknown(_)),
        )) ==> {
            &&& call_requires(validate_handshake, (Some(bytes),))
            &&& concluded matches Some(same)
            &&& verdict is Ok <==> same is Ok
            &&& verdict matches Err(error) ==> same matches Err(other) && error@ == other@
        },
{
}

/// A reply is read as the parser says: the version of a `CONNECTED` frame, the text of another
/// frame, or why it is none.
pub proof fn replies_are_read(bytes: Vec<u8>, reply: HandshakeReply)
    requires
        call_ensures(read_handshake_reply, (bytes,), reply),
    ensures
        match server_frame(bytes@) {
            Err(message) => reply matches HandshakeReply::Unreadable(error) && error@ == message,
            Ok(ServerFrameView::Connected(version)) => reply matches HandshakeReply::Connected(read)
                && read@ == version,
            Ok(ServerFrameView::Receipt) => reply matches HandshakeReply::Other(text) && text@
                == server_frame_text(bytes@),
            Ok(ServerFrameView::Error(body)) => reply matches HandshakeReply::Other(text) && text@
                == (if body matches Some(content) ==> valid_utf8(content) {
                server_frame_text(bytes@)
            } else {
                lossy_text(bytes@)
            }),
            Ok(ServerFrameView::Message(message)) => reply matches HandshakeReply::Other(text)
                && text@ == (if message.body matches Some(content) ==> valid_utf8(content) {
                server_frame_text(bytes@)
            } else {
                lossy_text(bytes@)
            }),
        },
{
}

/// The verdict on a reply is good for version 1.2 alone, and otherwise says why. There is one on
/// every reply but an unknown version.
pub proof fn verdicts_follow_the_reply(
    reply: HandshakeReply,
    printable: bool,
    verdict: Result<(), StompClientError>,
)
    requires
        call_ensures(HandshakeReply::printable, (&reply,), printable),
        call_ensures(HandshakeReply::verdict, (reply,), verdict),
    ensures
        printable <==> !(reply matches HandshakeReply::Connected(StompVersion::Unknown(_))),
        printable ==> call_requires(HandshakeReply::verdict, (reply,)),
        match reply {
            HandshakeReply::Connected(StompVersion::V1_2) => verdict is Ok,
            HandshakeReply::Connected(StompVersion::V1_1) => verdict matches Err(error) && error@
                == "Handshake failed, server replied with invalid StompVersion: version:1.1"@,
            HandshakeReply::Connected(StompVersion::V1_0) => verdict matches Err(error) && error@
                == "Handshake failed, server replied with invalid StompVersion: version:1.0"@,
            HandshakeReply::Connected(StompVersion::Unknown(_)) => true,
            HandshakeReply::Other(text) => verdict matches Err(error) && error@
                == "Handshake failed, expected CONNECTED Frame, received: "@ + text@,
            HandshakeReply::Unreadable(cause) => verdict matches Err(error) && error@ == cause@,
        },
{
    versions_are_written_out();
}

/// The known versions have their numbers.
pub proof fn versions_have_numbers(version: StompVersion, number: &'static str)
    requires
        call_ensures(StompVersion::number, (&version,), number),
    ensures
        match version {
            StompVersion::V1_0 => number@ == "1.0"@,
            StompVersion::V1_1 => number@ == "1.1"@,
            StompVersion::V1_2 => number@ == "1.2"@,
            StompVersion::Unknown(_) => true,
        },
        !(version is Unknown) ==> call_requires(StompVersion::number, (&version,)),
{
}

/// A frame from the server can be displayed exactly if it has no body, or one that is text.
pub proof fn frames_with_text_are_printable(frame: ServerFrame, printable: bool)
    requires
        call_ensures(ServerFrame::printable, (&frame,), printable),
    ensures
        printable <==> match frame {
            ServerFrame::Error(Some(body)) => valid_utf8(body@),
            ServerFrame::Message(message) => message.body matches Some(body) ==> valid_utf8(body@),
            _ => true,
        },
{
}

/// A new handle has passed nothing to the event loop.
pub proof fn new_sessions_have_asked_nothing(
    event_sender: UnboundedSender<SessionEvent>,
    session: StompClientSession,
)
    requires
        call_ensures(StompClientSession::new, (event_sender,), session),
    ensures
        session@.sender == event_sender,
        session@.taken == Seq::<SessionEventView>::empty(),
        session@.refused == Seq::<SessionEventView>::empty(),
{
}

/// An event is passed to the event loop as it is, and once. It is an error exactly if the loop does
/// not take it.
pub proof fn events_are_passed_on(
    session: &mut StompClientSession,
    event: SessionEvent,
    sent: Result<(), StompClientError>,
)
    requires
        call_ensures(StompClientSession::send_event, (session, event), sent),
    ensures
        final(session)@.sender == old(session)@.sender,
        match sent {
            Ok(()) => final(session)@.taken == old(session)@.taken.push(event@)
                && final(session)@.refused == old(session)@.refused,
            Err(error) => {
                &&& final(session)@.taken == old(session)@.taken
                &&& final(session)@.refused == old(session)@.refused.push(event@)
                &&& error@ == "Unable to create subscription"@
            },
        },
{
}

/// A request to send passes the destination and the whole message to the event loop, once and with
/// nothing else.
pub proof fn requests_to_send_are_passed_on(
    session: &mut StompClientSession,
    destination: String,
    message: Vec<u8>,
    sent: Result<(), StompClientError>,
)
    requires
        call_ensures(StompClientSession::send, (session, destination, message), sent),
    ensures
        final(session)@.sender == old(session)@.sender,
        match sent {
            Ok(()) => {
                &&& final(session)@.taken == old(session)@.taken.push(
                    SessionEventView::Send(destination@, message@),
                )
                &&& final(session)@.refused == old(session)@.refused
            },
            Err(error) => {
                &&& final(session)@.taken == old(session)@.taken
                &&& final(session)@.refused == old(session)@.refused.push(
                    SessionEventView::Send(destination@, message@),
                )
                &&& error@ == "Unable to create subscription"@
            },
        },
{
}

/// A request to close the session is passed to the event loop, once and with nothing else.
pub proof fn requests_to_close_are_passed_on(
    session: &mut StompClientSession,
    sent: Result<(), StompClientError>,
)
    requires
        call_ensures(StompClientSession::close, (session,), sent),
    ensures
        final(session)@.sender == old(session)@.sender,
        match sent {
            Ok(()) => {
                &&& final(session)@.taken == old(session)@.taken.push(SessionEventView::Close)
                &&& final(session)@.refused == old(session)@.refused
            },
            Err(error) => {
                &&& final(session)@.taken == old(session)@.taken
                &&& final(session)@.refused == old(session)@.refused.push(SessionEventView::Close)
                &&& error@ == "Unable to create subscription"@
            },
        },
{
}

/// A request to subscribe passes the destination to the event loop, once and with nothing else,
/// together with the sending half of the channel that the stream is the other end of.
pub proof fn requests_to_subscribe_are_passed_on(
    session: &mut StompClientSession,
    destination: String,
    subscribed: Result<IncomingMessageStream, StompClientError>,
)
    requires
        call_ensures(StompClientSession::subscribe, (session, destination), subscribed),
    ensures
        final(session)@.sender == old(session)@.sender,
        match subscribed {
            Ok(stream) => {
                &&& final(session)@.refused == old(session)@.refused
                &&& final(session)@.taken.len() == old(session)@.taken.len() + 1
                &&& final(session)@.taken.drop_last() == old(session)@.taken
                &&& final(session)@.taken.last() matches SessionEventView::Subscribe(asked, sender)
                &&& asked == destination@
                &&& joined(sender, source_of(stream))
            },
            Err(error) => {
                &&& final(session)@.taken == old(session)@.taken
                &&& final(session)@.refused.len() == old(session)@.refused.len() + 1
                &&& final(session)@.refused.drop_last() == old(session)@.refused
                &&& final(session)@.refused.last() matches SessionEventView::Subscribe(asked, _)
                &&& asked == destination@
                &&& error@ == "Unable to create subscription"@
            },
        },
{
    let event = if subscribed is Ok {
        final(session)@.taken.last()
    } else {
        final(session)@.refused.last()
    };
    assert(old(session)@.taken.push(event).drop_last() =~= old(session)@.taken);
    assert(old(session)@.refused.push(event).drop_last() =~= old(session)@.refused);
}

/// A request that the event loop cannot take is an error with these words.
pub proof fn refused_requests_are_errors(
    answer: Result<(), String>,
    result: Result<(), StompClientError>,
)
    requires
        call_ensures(event_result, (answer,), result),
    ensures
        result is Ok <==> answer is Ok,
        result matches Err(error) ==> error@ == "Unable to create subscription"@,
{
}

/// A new outlet has been handed nothing.
pub proof fn new_outlets_are_fresh(
    sender: UnboundedSender<MessageFrame>,
    outlet: Outlet<MessageFrame>,
)
    requires
        call_ensures(Outlet::<MessageFrame>::new, (sender,), outlet),
    ensures
        outlet@.sender == sender,
        outlet@.taken == Seq::<MessageFrameView>::empty(),
        outlet@.refused == Seq::<MessageFrameView>::empty(),
{
}

/// A message that is handed to an outlet is the last in one of its two logs, and the other log and
/// all earlier messages stay.
pub proof fn outlets_keep_what_they_are_handed(
    before: OutletView<MessageFrame>,
    message: MessageFrameView,
)
    ensures
        before.after(message, true).sender == before.sender,
        before.after(message, false).sender == before.sender,
        before.after(message, true).taken == before.taken.push(message),
        before.after(message, true).refused == before.refused,
        before.after(message, false).taken == before.taken,
        before.after(message, false).refused == before.refused.push(message),
{
}

/// A subscription is found once it was put into the table, and is gone once it was removed; the
/// others stay as they are. Their number grows and shrinks with them.
pub proof fn tables_keep_their_subscriptions(
    table: &mut Subscribers,
    id: String,
    outlet: Outlet<MessageFrame>,
    ended: &mut Subscribers,
    ended_id: &str,
    removed: bool,
    other: Seq<char>,
)
    requires
        call_ensures(Subscribers::insert, (table, id, outlet), ()),
        call_ensures(Subscribers::remove, (ended, ended_id), removed),
    ensures
        final(table)@.contains_key(id@),
        final(table)@[id@] == outlet@,
        other != id@ ==> final(table)@.contains_key(other) == old(table)@.contains_key(other),
        other != id@ && old(table)@.contains_key(other) ==> final(table)@[other]
            == old(table)@[other],
        removed == old(ended)@.contains_key(ended_id@),
        !final(ended)@.contains_key(ended_id@),
        other != ended_id@ ==> final(ended)@.contains_key(other) == old(ended)@.contains_key(other),
        other != ended_id@ && old(ended)@.contains_key(other) ==> final(ended)@[other]
            == old(ended)@[other],
{
}

/// The table knows how many subscriptions there are and which, and starts without any.
pub proof fn tables_know_their_subscriptions(
    empty: Subscribers,
    table: Subscribers,
    count: usize,
    id: &str,
    found: bool,
)
    requires
        call_ensures(Subscribers::new, (), empty),
        call_ensures(Subscribers::len, (&table,), count),
        call_ensures(Subscribers::contains, (&table, id), found),
    ensures
        empty@ == Subscriptions::empty(),
        count == table@.dom().len(),
        found == table@.dom().contains(id@),
{
}

/// A message is handed to the outlet of its subscription, whole and once, and to no other.
pub proof fn tables_hand_messages_over(
    table: &mut Subscribers,
    message: MessageFrame,
    answer: Result<(), String>,
)
    requires
        old(table)@.contains_key(message.subscription@),
        call_ensures(Subscribers::hand_over, (table, message), answer),
    ensures
        call_requires(Subscribers::hand_over, (table, message)),
        ({
            let id = message.subscription@;
            let before = old(table)@;
            let after = final(table)@;
            &&& after.dom() == before.dom()
            &&& after.remove(id) == before.remove(id)
            &&& after[id].sender == before[id].sender
            &&& match answer {
                Ok(()) => after[id].taken == before[id].taken.push(message@) && after[id].refused
                    == before[id].refused,
                Err(refusal) => {
                    &&& after[id].taken == before[id].taken
                    &&& after[id].refused == before[id].refused.push(message@)
                    &&& refusal@ == "channel closed"@
                },
            }
        }),
{
    let id = message.subscription@;
    assert(final(table)@.dom() =~= old(table)@.dom());
    assert(final(table)@.remove(id) =~= old(table)@.remove(id));
}

/// A number below ten is written as its digit. Every other number is written as the number without
/// its last digit, followed by that digit.
pub proof fn numbers_are_written_digit_by_digit(
    n: usize,
    text: String,
    tenth: String,
    units: String,
)
    requires
        call_ensures(to_decimal, (n,), text),
        call_ensures(to_decimal, ((n / 10) as usize,), tenth),
        call_ensures(to_decimal, ((n % 10) as usize,), units),
    ensures
        text@ == decimal(n as nat),
        units@.len() == 1,
        units@[0] as int == 48 + n % 10,
        n < 10 ==> text@ == units@,
        n >= 10 ==> text@ == tenth@ + units@,
{
    assert(decimal((n / 10) as nat).push(decimal((n % 10) as nat)[0]) =~= decimal((n / 10) as nat)
        + decimal((n % 10) as nat));
}

/// The decimal text of a number is that of the number without its last digit, followed by that
/// digit; a number below ten has the digit alone.
pub proof fn decimals_are_written_digit_by_digit(n: nat, d: nat)
    requires
        d < 10,
    ensures
        decimal(d).len() == 1,
        decimal(d)[0] as int == 48 + d,
        n > 0 ==> decimal(10 * n + d) == decimal(n) + decimal(d),
{
    if n > 0 {
        assert((10 * n + d) / 10 == n);
        assert((10 * n + d) % 10 == d);
        assert(decimal(n).push(decimal(d)[0]) =~= decimal(n) + decimal(d));
    }
}

/// An error says what it was made from: text as it is, a parse error by its message, and a refusal
/// of a sink by its name. Logs show it behind its own name.
pub proof fn errors_keep_their_words(
    text: String,
    words: &'static str,
    from_string: StompClientError,
    from_words: StompClientError,
    shown: String,
)
    requires
        call_ensures(StompClientError::new::<String>, (text,), from_string),
        call_ensures(StompClientError::new::<&'static str>, (words,), from_words),
        call_ensures(StompClientError::debug_text, (&from_string,), shown),
    ensures
        from_string@ == text@,
        from_words@ == words@,
        shown@ == "StompClientError: "@ + text@,
{
}

/// A parse error keeps its message, and a refusal of a sink goes by its name.
pub proof fn outside_errors_keep_their_words(
    cause: StompParseError,
    parse_error: StompClientError,
    source: SinkError,
    sink_error: StompClientError,
)
    requires
        call_ensures(<StompClientError as From<StompParseError>>::from, (cause,), parse_error),
        call_ensures(<StompClientError as From<SinkError>>::from, (source,), sink_error),
    ensures
        parse_error@ == parse_error_message(cause),
        sink_error@ == (match source {
            SinkError::ChannelClosed => "ChannelClosed"@,
            SinkError::SendFailed => "SendFailed"@,
        }),
{
}

/// Events go by the names of their kinds.
pub proof fn events_go_by_their_kinds(event: SessionEvent, name: &'static str)
    requires
        call_ensures(SessionEvent::name, (&event,), name),
    ensures
        name@ == (match event {
            SessionEvent::Subscribe(_, _) => "Subscribe"@,
            SessionEvent::Unsubscribe(_) => "Unsubscribe"@,
            SessionEvent::Send(_, _) => "Send"@,
            SessionEvent::ServerFrame(_) => "ServerFrame"@,
            SessionEvent::ServerHeartBeat => "ServerHeartBeat"@,
            SessionEvent::Close => "Close"@,
            SessionEvent::Disconnected => "Disconnected"@,
        }),
{
}

/// The view of a message holds all of it: its subscription, its body and its bytes.
pub proof fn messages_are_seen_whole(message: MessageFrame)
    ensures
        message@.subscription == message.subscription@,
        message@.raw == message.raw@,
        match message.body {
            Some(body) => message@.body == Some(body@),
            None => message@.body is None,
        },
{
}

/// The view of a frame from the server holds all of it.
pub proof fn server_frames_are_seen_whole(frame: ServerFrame)
    ensures
        match frame {
            ServerFrame::Connected(version) => frame@ == ServerFrameView::Connected(version@)
                && match version {
                StompVersion::V1_0 => version@ is V1_0,
                StompVersion::V1_1 => version@ is V1_1,
                StompVersion::V1_2 => version@ is V1_2,
                StompVersion::Unknown(name) => version@ == StompVersionView::Unknown(name@),
            },
            ServerFrame::Receipt => frame@ is Receipt,
            ServerFrame::Error(Some(body)) => frame@ == ServerFrameView::Error(Some(body@)),
            ServerFrame::Error(None) => frame@ == ServerFrameView::Error(None),
            ServerFrame::Message(message) => frame@ == ServerFrameView::Message(message@),
        },
{
}

/// The view of a frame of the client holds all of it.
pub proof fn client_frames_are_seen_whole(frame: ClientFrame)
    ensures
        match frame {
            ClientFrame::Subscribe { destination, id } => frame@ matches ClientFrameView::Subscribe {
                destination: seen,
                id: seen_id,
            } && seen == destination@ && seen_id == id@,
            ClientFrame::Unsubscribe { id } => frame@ matches ClientFrameView::Unsubscribe {
                id: seen_id,
            } && seen_id == id@,
            ClientFrame::Send { destination, body } => frame@ matches ClientFrameView::Send {
                destination: seen,
                body: seen_body,
            } && seen == destination@ && seen_body == body@,
        },
{
}

/// The view of an event holds all of it.
pub proof fn events_are_seen_whole(event: SessionEvent)
    ensures
        match event {
            SessionEvent::Subscribe(destination, sender) => event@ == SessionEventView::Subscribe(
                destination.0@,
                sender,
            ),
            SessionEvent::Unsubscribe(id) => event@ == SessionEventView::Unsubscribe(id.0@),
            SessionEvent::Send(destination, content) => event@ == SessionEventView::Send(
                destination.0@,
                content@,
            ),
            SessionEvent::ServerFrame(Ok(frame)) => event@ == SessionEventView::ServerFrame(
                Ok(frame@),
            ),
            SessionEvent::ServerFrame(Err(error)) => event@ == SessionEventView::ServerFrame(
                Err(error@),
            ),
            SessionEvent::ServerHeartBeat => event@ is ServerHeartBeat,
            SessionEvent::Close => event@ is Close,
            SessionEvent::Disconnected => event@ is Disconnected,
        },
{
}

} // verus!
