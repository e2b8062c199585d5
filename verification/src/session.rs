//! The client's handle on a session.

use tokio::sync::mpsc::UnboundedSender;
use tokio_stream::wrappers::UnboundedReceiverStream;
use vstd::prelude::*;

use crate::channel::{feeds, message_channel, message_stream, Outlet, OutletView};
use crate::error::StompClientError;
use crate::event_loop::{DestinationId, SessionEvent, SessionEventView};
use crate::frames::MessageFrame;
use crate::text::shown;

verus! {

/// The client's handle on a session: it passes what the client asks for to the event loop.
pub struct StompClientSession {
    events: Outlet<SessionEvent>,
}

impl View for StompClientSession {
    type V = OutletView<SessionEvent>;

    /// The channel to the event loop, and what this handle has passed to it.
    closed spec fn view(&self) -> OutletView<SessionEvent> {
        self.events@
    }
}

impl std::fmt::Debug for StompClientSession {
    /// Shows that this is a session, and nothing of it.
    fn fmt(&self, f: &mut std::fmt::Formatter<'_>) -> (written: std::fmt::Result)
        ensures
            written is Ok ==> shown(final(f)) == shown(old(f)) + "StompClientSession"@,
    {
        f.write_str("StompClientSession")
    }
}

/// The stream of the messages of a subscription.
pub type IncomingMessageStream = UnboundedReceiverStream<MessageFrame>;

/// The error for a request that the event loop can no longer take.
pub open spec fn not_taken_text() -> Seq<char> {
    "Unable to create subscription"@
}

/// Whether an event asks for the messages of a destination, on a channel that feeds `stream`.
pub open spec fn asks_for(
    event: SessionEventView,
    destination: Seq<char>,
    stream: IncomingMessageStream,
) -> bool {
    &&& event matches SessionEventView::Subscribe(asked, sender)
    &&& asked == destination
    &&& feeds(sender, stream)
}

/// Puts the answer of the event loop's channel into the words of a session.
pub fn event_result(answer: Result<(), String>) -> (result: Result<(), StompClientError>)
    ensures
        match answer {
            Ok(()) => result is Ok,
            Err(_) => result matches Err(error) && error@ == not_taken_text(),
        },
{
    match answer {
        Ok(()) => Ok(()),
        Err(_) => Err(StompClientError::new("Unable to create subscription")),
    }
}

impl StompClientSession {
    /// A handle that passes requests to the event loop through `event_sender`.
    pub fn new(event_sender: UnboundedSender<SessionEvent>) -> (session: StompClientSession)
        ensures
            session@ == OutletView::fresh(event_sender),
    {
        StompClientSession { events: Outlet::new(event_sender) }
    }

    /// Passes an event to the event loop. It is an error if the loop has ended.
    pub fn send_event(&mut self, event: SessionEvent) -> (sent: Result<(), StompClientError>)
        ensures
            final(self)@ == old(self)@.after(event@, sent is Ok),
            sent matches Err(error) ==> error@ == not_taken_text(),
    {
        event_result(self.events.hand_over(event))
    }

    /// Asks for the messages of a destination, which the stream then yields: it is fed by the
    /// channel in the request. The request is the one event that is passed to the event loop.
    pub fn subscribe(&mut self, destination: String) -> (subscribed: Result<
        IncomingMessageStream,
        StompClientError,
    >)
        ensures
            match subscribed {
                Ok(stream) => {
                    let event = final(self)@.taken.last();
                    &&& final(self)@ == old(self)@.after(event, true)
                    &&& asks_for(event, destination@, stream)
                },
                Err(error) => {
                    let event = final(self)@.refused.last();
                    &&& final(self)@ == old(self)@.after(event, false)
                    &&& event matches SessionEventView::Subscribe(asked, _)
                    &&& asked == destination@
                    &&& error@ == not_taken_text()
                },
            },
    {
        let (sender, receiver) = message_channel();
        match self.send_event(SessionEvent::Subscribe(DestinationId(destination), sender)) {
            Ok(()) => Ok(message_stream(receiver)),
            Err(error) => Err(error),
        }
    }

    /// Asks to send a message to a destination.
    pub fn send(&mut self, destination: String, message: Vec<u8>) -> (sent: Result<
        (),
        StompClientError,
    >)
        ensures
            final(self)@ == old(self)@.after(
                SessionEventView::Send(destination@, message@),
                sent is Ok,
            ),
            sent matches Err(error) ==> error@ == not_taken_text(),
    {
        self.send_event(SessionEvent::Send(DestinationId(destination), message))
    }

    /// Asks to end the session. The channel alone does not end it, because others may hold its
    /// sending half too.
    pub fn close(&mut self) -> (sent: Result<(), StompClientError>)
        ensures
            final(self)@ == old(self)@.after(SessionEventView::Close, sent is Ok),
            sent matches Err(error) ==> error@ == not_taken_text(),
    {
        self.send_event(SessionEvent::Close)
    }
}

} // verus!
