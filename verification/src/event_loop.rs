//! The event loop of a session: what it does with each event, and what it answers.

use tokio::sync::mpsc::UnboundedSender;
use vstd::prelude::*;
use vstd::string::*;

use crate::channel::{Outlet, OutletView};
use crate::error::StompClientError;
use crate::frames::{
    parse_server_frame, server_frame, ClientFrame, ClientFrameView, MessageFrame,
    MessageFrameView, ServerFrame, ServerFrameView,
};
use crate::table::{Subscribers, Subscriptions};
use crate::text::{decimal, quote, quoted, shown, to_decimal};

verus! {

/// The name of a destination on the server.
pub struct DestinationId(pub String);

impl View for DestinationId {
    type V = Seq<char>;

    open spec fn view(&self) -> Seq<char> {
        self.0@
    }
}

/// The id of a subscription, which the client chooses.
#[derive(Debug, Clone, PartialEq, Eq, Hash)]
pub struct SubscriptionId(pub String);

impl View for SubscriptionId {
    type V = Seq<char>;

    open spec fn view(&self) -> Seq<char> {
        self.0@
    }
}

/// Something that the event loop reacts to.
pub enum SessionEvent {
    /// The client wants the messages of a destination on this channel.
    Subscribe(DestinationId, UnboundedSender<MessageFrame>),
    /// The client no longer wants the messages of a subscription.
    Unsubscribe(SubscriptionId),
    /// The client sends a message to a destination.
    Send(DestinationId, Vec<u8>),
    /// The server sent a frame, or something that is none.
    ServerFrame(Result<ServerFrame, StompClientError>),
    /// The server sent a heart-beat.
    ServerHeartBeat,
    /// The client ends the session.
    Close,
    /// The connection to the server has ended.
    Disconnected,
}

/// Something that the event loop reacts to.
pub enum SessionEventView {
    Subscribe(Seq<char>, UnboundedSender<MessageFrame>),
    Unsubscribe(Seq<char>),
    Send(Seq<char>, Seq<u8>),
    ServerFrame(Result<ServerFrameView, Seq<char>>),
    ServerHeartBeat,
    Close,
    Disconnected,
}

impl View for SessionEvent {
    type V = SessionEventView;

    open spec fn view(&self) -> SessionEventView {
        match self {
            SessionEvent::Subscribe(destination, sender) => SessionEventView::Subscribe(
                destination@,
                *sender,
            ),
            SessionEvent::Unsubscribe(subscription) => SessionEventView::Unsubscribe(subscription@),
            SessionEvent::Send(destination, content) => SessionEventView::Send(
                destination@,
                content@,
            ),
            SessionEvent::ServerFrame(Ok(frame)) => SessionEventView::ServerFrame(Ok(frame@)),
            SessionEvent::ServerFrame(Err(error)) => SessionEventView::ServerFrame(Err(error@)),
            SessionEvent::ServerHeartBeat => SessionEventView::ServerHeartBeat,
            SessionEvent::Close => SessionEventView::Close,
            SessionEvent::Disconnected => SessionEventView::Disconnected,
        }
    }
}

impl SessionEventView {
    /// Whether the event loop can handle this event. It handles no heart-beat from the server,
    /// and of the server's frames only messages.
    pub open spec fn supported(self) -> bool {
        match self {
            SessionEventView::ServerHeartBeat => false,
            SessionEventView::ServerFrame(Ok(frame)) => frame is Message,
            _ => true,
        }
    }

    /// The name of the kind of event.
    pub open spec fn name(self) -> Seq<char> {
        match self {
            SessionEventView::Subscribe(_, _) => "Subscribe"@,
            SessionEventView::Unsubscribe(_) => "Unsubscribe"@,
            SessionEventView::Send(_, _) => "Send"@,
            SessionEventView::ServerFrame(_) => "ServerFrame"@,
            SessionEventView::ServerHeartBeat => "ServerHeartBeat"@,
            SessionEventView::Close => "Close"@,
            SessionEventView::Disconnected => "Disconnected"@,
        }
    }
}

impl SessionEvent {
    /// The name of the kind of event, for logs.
    pub fn name(&self) -> (name: &'static str)
        ensures
            name@ == self@.name(),
    {
        match self {
            SessionEvent::Subscribe(_, _) => "Subscribe",
            SessionEvent::Unsubscribe(_) => "Unsubscribe",
            SessionEvent::Send(_, _) => "Send",
            SessionEvent::ServerFrame(_) => "ServerFrame",
            SessionEvent::ServerHeartBeat => "ServerHeartBeat",
            SessionEvent::Close => "Close",
            SessionEvent::Disconnected => "Disconnected",
        }
    }

    /// Whether the event loop can handle this event.
    pub fn supported(&self) -> (supported: bool)
        ensures
            supported == self@.supported(),
    {
        match self {
            SessionEvent::ServerHeartBeat => false,
            SessionEvent::ServerFrame(Ok(ServerFrame::Message(_))) => true,
            SessionEvent::ServerFrame(Ok(_)) => false,
            _ => true,
        }
    }
}

impl std::fmt::Debug for SessionEvent {
    /// Shows the kind of the event, and none of its content.
    fn fmt(&self, f: &mut std::fmt::Formatter<'_>) -> (written: std::fmt::Result)
        ensures
            written is Ok ==> shown(final(f)) == shown(old(f)) + self@.name(),
    {
        f.write_str(self.name())
    }
}

/// Whether the session goes on.
#[derive(Debug, Clone, Copy, PartialEq, Eq)]
pub enum SessionState {
    Alive,
    Dead,
}

/// What the event loop sends to the server.
#[derive(Debug)]
pub enum MessageToServer {
    ClientFrame(ClientFrame),
    Heartbeat,
}

/// What the event loop sends to the server.
pub enum MessageToServerView {
    ClientFrame(ClientFrameView),
    Heartbeat,
}

impl View for MessageToServer {
    type V = MessageToServerView;

    open spec fn view(&self) -> MessageToServerView {
        match self {
            MessageToServer::ClientFrame(frame) => MessageToServerView::ClientFrame(frame@),
            MessageToServer::Heartbeat => MessageToServerView::Heartbeat,
        }
    }
}

impl MessageToServerView {
    /// The bytes of this message. A heart-beat is a line feed.
    pub open spec fn bytes(self) -> Seq<u8> {
        match self {
            MessageToServerView::ClientFrame(frame) => frame.bytes(),
            MessageToServerView::Heartbeat => seq![10u8],
        }
    }
}

impl MessageToServer {
    /// The wire form of this message.
    pub fn into_bytes(self) -> (bytes: Vec<u8>)
        ensures
            bytes@ == self@.bytes(),
    {
        match self {
            MessageToServer::ClientFrame(frame) => frame.into_bytes(),
            MessageToServer::Heartbeat => vec![10u8],
        }
    }
}

/// The outcome of one event: whether the session goes on, and what to send to the server.
pub type EventResult = Result<(SessionState, Option<MessageToServer>), StompClientError>;

/// The outcome of one event.
pub type EventResultView = Result<(SessionState, Option<MessageToServerView>), Seq<char>>;

/// What an outcome says, with errors taken by their message.
pub open spec fn event_result_view(result: EventResult) -> EventResultView {
    match result {
        Ok((state, Some(message))) => Ok((state, Some(message@))),
        Ok((state, None)) => Ok((state, None)),
        Err(error) => Err(error@),
    }
}

/// The id that the next subscription gets: the number of open ones, in decimal.
pub open spec fn next_id(subscriptions: Subscriptions) -> Seq<char> {
    decimal(subscriptions.len())
}

/// The subscriptions after a message was handed to the outlet of its subscription, if that is open,
/// where the channel took it or refused it.
pub open spec fn offered(
    subscriptions: Subscriptions,
    message: MessageFrameView,
    taken: bool,
) -> Subscriptions {
    if subscriptions.contains_key(message.subscription) {
        subscriptions.insert(
            message.subscription,
            subscriptions[message.subscription].after(message, taken),
        )
    } else {
        subscriptions
    }
}

/// The subscriptions after an event, where the channel of a subscription takes or refuses a message
/// that it is handed.
pub open spec fn next_subscriptions(
    subscriptions: Subscriptions,
    event: SessionEventView,
    taken: bool,
) -> Subscriptions {
    match event {
        SessionEventView::Subscribe(_, sender) => subscriptions.insert(
            next_id(subscriptions),
            OutletView::fresh(sender),
        ),
        SessionEventView::Unsubscribe(id) => subscriptions.remove(id),
        SessionEventView::ServerFrame(Ok(ServerFrameView::Message(message))) => offered(
            subscriptions,
            message,
            taken,
        ),
        _ => subscriptions,
    }
}

/// The error for the end of a subscription that is not open.
pub open spec fn missing_subscription_text(id: Seq<char>) -> Seq<char> {
    "Tried to remove missing subscription SubscriptionId("@ + quoted(id) + ")"@
}

/// The error for a message whose subscription is not open.
pub open spec fn unknown_subscription_text(id: Seq<char>) -> Seq<char> {
    "Received message for unknown subscription "@ + id
}

/// The error for a message that the channel of its subscription refused.
pub open spec fn undelivered_text(refusal: Seq<char>) -> Seq<char> {
    "error sending message to handler: "@ + refusal
}

/// The outcome of a request to subscribe: the server is asked under the next id.
pub open spec fn subscribe_outcome(
    subscriptions: Subscriptions,
    destination: Seq<char>,
) -> EventResultView {
    Ok(
        (
            SessionState::Alive,
            Some(
                MessageToServerView::ClientFrame(
                    ClientFrameView::Subscribe { destination, id: next_id(subscriptions) },
                ),
            ),
        ),
    )
}

/// The outcome of the end of a subscription: the server is told so if it was open.
pub open spec fn unsubscribe_outcome(
    subscriptions: Subscriptions,
    id: Seq<char>,
) -> EventResultView {
    if subscriptions.contains_key(id) {
        Ok(
            (
                SessionState::Alive,
                Some(MessageToServerView::ClientFrame(ClientFrameView::Unsubscribe { id })),
            ),
        )
    } else {
        Err(missing_subscription_text(id))
    }
}

/// The outcome of a request to send a message: the server gets it.
pub open spec fn send_outcome(destination: Seq<char>, body: Seq<u8>) -> EventResultView {
    Ok(
        (
            SessionState::Alive,
            Some(MessageToServerView::ClientFrame(ClientFrameView::Send { destination, body })),
        ),
    )
}

/// The outcome of handing a message to the outlet of its subscription: nothing else to do if the
/// channel takes it.
pub open spec fn delivery_outcome(
    subscriptions: Subscriptions,
    message: MessageFrameView,
    taken: bool,
) -> Result<(), Seq<char>> {
    if !subscriptions.contains_key(message.subscription) {
        Err(unknown_subscription_text(message.subscription))
    } else if taken {
        Ok(())
    } else {
        Err(undelivered_text("channel closed"@))
    }
}

/// The outcome of a message from the server, by what came of forwarding it.
pub open spec fn message_outcome(forwarded: Result<(), Seq<char>>) -> EventResultView {
    match forwarded {
        Ok(()) => Ok((SessionState::Alive, None)),
        Err(error) => Err(error),
    }
}

/// The outcome of an event that the loop supports, where the channel of a subscription takes or
/// refuses a message that it is handed.
pub open spec fn response(
    subscriptions: Subscriptions,
    event: SessionEventView,
    taken: bool,
) -> EventResultView
    recommends
        event.supported(),
{
    match event {
        SessionEventView::Subscribe(destination, _) => subscribe_outcome(
            subscriptions,
            destination,
        ),
        SessionEventView::Unsubscribe(id) => unsubscribe_outcome(subscriptions, id),
        SessionEventView::Send(destination, body) => send_outcome(destination, body),
        SessionEventView::ServerFrame(Ok(ServerFrameView::Message(message))) => message_outcome(
            delivery_outcome(subscriptions, message, taken),
        ),
        SessionEventView::ServerFrame(Err(error)) => Err(error),
        SessionEventView::Close => Ok((SessionState::Dead, None)),
        SessionEventView::Disconnected => Ok((SessionState::Dead, None)),
        _ => arbitrary(),
    }
}

/// Whether `result` is what the loop makes of `event` as the subscriptions go from `before` to
/// `after`. What a subscriber's channel answers shows in both: it takes or refuses what it is
/// handed.
pub open spec fn handles(
    before: Subscriptions,
    event: SessionEventView,
    after: Subscriptions,
    result: EventResult,
) -> bool {
    exists|taken: bool|
        after == next_subscriptions(before, event, taken) && event_result_view(result)
            == #[trigger] response(before, event, taken)
}

/// What forwarding a message says, with errors taken by their message.
pub open spec fn forwarded_view(forwarded: Result<(), StompClientError>) -> Result<(), Seq<char>> {
    match forwarded {
        Ok(()) => Ok(()),
        Err(error) => Err(error@),
    }
}

/// Whether `forwarded` is what comes of forwarding a message as the subscriptions go from `before`
/// to `after`: it is handed once to the outlet of its subscription, if that is open, and to no
/// other, and `forwarded` is what the channel says to it.
pub open spec fn forwards(
    before: Subscriptions,
    message: MessageFrameView,
    after: Subscriptions,
    forwarded: Result<(), StompClientError>,
) -> bool {
    &&& after == offered(before, message, forwarded is Ok)
    &&& forwarded_view(forwarded) == delivery_outcome(before, message, forwarded is Ok)
}

/// The state of a session's event loop: the open subscriptions.
pub struct SessionEventLoop {
    subscriptions: Subscribers,
}

impl View for SessionEventLoop {
    type V = Subscriptions;

    closed spec fn view(&self) -> Subscriptions {
        self.subscriptions@
    }
}

/// Whether the session goes on after an outcome.
pub open spec fn goes_on(result: EventResultView) -> bool {
    !(result matches Ok((SessionState::Dead, _)))
}

/// The bytes to send to the server after an outcome.
pub open spec fn outgoing(result: EventResultView) -> Option<Seq<u8>> {
    match result {
        Ok((_, Some(message))) => Some(message.bytes()),
        _ => None,
    }
}

/// The subscription that an outcome has opened.
pub open spec fn opens(result: EventResultView) -> Option<Seq<char>> {
    match result {
        Ok(
            (_, Some(MessageToServerView::ClientFrame(ClientFrameView::Subscribe { id, .. }))),
        ) => Some(id),
        _ => None,
    }
}

/// What the loop does after an event.
#[derive(Debug)]
pub enum Step {
    /// It ends.
    Stop,
    /// It waits for the next event.
    Wait,
    /// It sends these bytes to the server, then waits for the next event.
    Transmit(Vec<u8>),
}

/// What the loop does after an event.
pub enum StepView {
    Stop,
    Wait,
    Transmit(Seq<u8>),
}

impl View for Step {
    type V = StepView;

    open spec fn view(&self) -> StepView {
        match self {
            Step::Stop => StepView::Stop,
            Step::Wait => StepView::Wait,
            Step::Transmit(bytes) => StepView::Transmit(bytes@),
        }
    }
}

/// What the loop does after an outcome: a dead session stops without sending anything.
pub open spec fn step_after(result: EventResultView) -> StepView {
    if !goes_on(result) {
        StepView::Stop
    } else {
        match outgoing(result) {
            Some(bytes) => StepView::Transmit(bytes),
            None => StepView::Wait,
        }
    }
}

/// Puts the answer of a subscription's channel into the words of a session.
pub fn delivery_result(answer: Result<(), String>) -> (result: Result<(), StompClientError>)
    ensures
        match answer {
            Ok(()) => result is Ok,
            Err(refusal) => result matches Err(error) && error@ == undelivered_text(refusal@),
        },
{
    match answer {
        Ok(()) => Ok(()),
        Err(refusal) => Err(
            StompClientError::new(
                "error sending message to handler: ".to_owned().concat(refusal.as_str()),
            ),
        ),
    }
}

/// The outcome of a message from the server. A delivery leaves the session waiting, with nothing
/// to send; a failure is passed on as it is.
pub fn handled_delivery(forwarded: Result<(), StompClientError>) -> (result: EventResult)
    ensures
        match forwarded {
            Ok(()) => result == EventResult::Ok((SessionState::Alive, None)),
            Err(error) => result == EventResult::Err(error),
        },
        event_result_view(result) == message_outcome(forwarded_view(forwarded)),
{
    match forwarded {
        Ok(()) => Ok((SessionState::Alive, None)),
        Err(error) => Err(error),
    }
}

/// The error for the end of a subscription that is not open, where `shown` is what its id looks
/// like in logs.
pub fn missing_subscription(shown: &str) -> (error: StompClientError)
    ensures
        error@ == "Tried to remove missing subscription SubscriptionId("@ + shown@ + ")"@,
{
    StompClientError::new(
        "Tried to remove missing subscription SubscriptionId(".to_owned().concat(shown).concat(")"),
    )
}

/// The error for a message whose subscription is not open.
pub fn unknown_subscription(id: &str) -> (error: StompClientError)
    ensures
        error@ == unknown_subscription_text(id@),
{
    StompClientError::new("Received message for unknown subscription ".to_owned().concat(id))
}

impl SessionEventLoop {
    /// An event loop without subscriptions.
    pub fn new() -> (session: SessionEventLoop)
        ensures
            session@ == Subscriptions::empty(),
    {
        SessionEventLoop { subscriptions: Subscribers::new() }
    }

    /// Opens a subscription whose messages go to `sender`, and asks the server for it.
    ///
    /// The id is the number of open subscriptions. An open subscription with that id is
    /// replaced.
    pub fn subscribe(
        &mut self,
        destination: DestinationId,
        sender: UnboundedSender<MessageFrame>,
    ) -> (result: EventResult)
        ensures
            final(self)@ == old(self)@.insert(next_id(old(self)@), OutletView::fresh(sender)),
            event_result_view(result) == subscribe_outcome(old(self)@, destination@),
    {
        let subscription_id = SubscriptionId(to_decimal(self.subscriptions.len()));
        let message_to_server = MessageToServer::ClientFrame(
            ClientFrame::Subscribe { destination: destination.0, id: subscription_id.0.clone() },
        );
        self.subscriptions.insert(subscription_id.0, Outlet::new(sender));
        Ok((SessionState::Alive, Some(message_to_server)))
    }

    /// Ends a subscription, here and on the server. It is an error if it is not open.
    pub fn unsubscribe(&mut self, subscription: SubscriptionId) -> (result: EventResult)
        ensures
            final(self)@ == old(self)@.remove(subscription@),
            event_result_view(result) == unsubscribe_outcome(old(self)@, subscription@),
    {
        if self.subscriptions.remove(subscription.0.as_str()) {
            Ok(
                (
                    SessionState::Alive,
                    Some(
                        MessageToServer::ClientFrame(
                            ClientFrame::Unsubscribe { id: subscription.0 },
                        ),
                    ),
                ),
            )
        } else {
            Err(missing_subscription(quote(subscription.0.as_str()).as_str()))
        }
    }

    /// Sends a message to a destination.
    pub fn send(&mut self, destination: DestinationId, content: Vec<u8>) -> (result: EventResult)
        ensures
            final(self)@ == old(self)@,
            event_result_view(result) == send_outcome(destination@, content@),
    {
        let message_to_server = MessageToServer::ClientFrame(
            ClientFrame::Send { destination: destination.0, body: content },
        );
        Ok((SessionState::Alive, Some(message_to_server)))
    }

    /// Hands a message to the outlet of its subscription. It is an error if that is not open, or
    /// if the channel refuses the message.
    pub fn forward_message(&mut self, message_frame: MessageFrame) -> (forwarded: Result<
        (),
        StompClientError,
    >)
        ensures
            forwards(old(self)@, message_frame@, final(self)@, forwarded),
    {
        if !self.subscriptions.contains(message_frame.subscription.as_str()) {
            return Err(unknown_subscription(message_frame.subscription.as_str()));
        }
        delivery_result(self.subscriptions.hand_over(message_frame))
    }

    /// Handles a frame from the server, which has to be a message.
    pub fn handle_server_frame(&mut self, server_frame: ServerFrame) -> (result: EventResult)
        requires
            server_frame is Message,
        ensures
            handles(
                old(self)@,
                SessionEventView::ServerFrame(Ok(server_frame@)),
                final(self)@,
                result,
            ),
    {
        let ghost event = SessionEventView::ServerFrame(Ok(server_frame@));
        match server_frame {
            ServerFrame::Message(message_frame) => {
                let result = handled_delivery(self.forward_message(message_frame));
                assert(event_result_view(result) == response(old(self)@, event, result is Ok));
                result
            },
            _ => unreached(),
        }
    }

    /// Handles one event.
    pub fn handle_event(&mut self, event: SessionEvent) -> (result: EventResult)
        requires
            event@.supported(),
        ensures
            handles(old(self)@, event@, final(self)@, result),
    {
        let ghost seen = event@;
        let result = match event {
            SessionEvent::Subscribe(destination, message_sender) => self.subscribe(
                destination,
                message_sender,
            ),
            SessionEvent::Unsubscribe(subscription_id) => self.unsubscribe(subscription_id),
            SessionEvent::Send(destination, content) => self.send(destination, content),
            SessionEvent::ServerFrame(Ok(server_frame)) => {
                return self.handle_server_frame(server_frame);
            },
            SessionEvent::ServerFrame(Err(error)) => Err(error),
            SessionEvent::Close => Ok((SessionState::Dead, None)),
            SessionEvent::Disconnected => Ok((SessionState::Dead, None)),
            SessionEvent::ServerHeartBeat => unreached(),
        };
        assert(event_result_view(result) == response(old(self)@, seen, true));
        result
    }

    /// Whether the session goes on after an outcome. Only a dead session ends; errors do not
    /// end it.
    pub fn not_dead(event_result: &EventResult) -> (alive: bool)
        ensures
            alive == goes_on(event_result_view(*event_result)),
    {
        match event_result {
            Ok((SessionState::Dead, _)) => false,
            _ => true,
        }
    }

    /// The bytes to send to the server after an outcome, if there are any. Errors are dropped.
    pub fn into_opt_ok_of_bytes(result: EventResult) -> (bytes: Option<
        Result<Vec<u8>, StompClientError>,
    >)
        ensures
            match outgoing(event_result_view(result)) {
                Some(expected) => bytes matches Some(Ok(written)) && written@ == expected,
                None => bytes is None,
            },
    {
        match result {
            Ok((_, Some(message))) => Some(Ok(message.into_bytes())),
            _ => None,
        }
    }

    /// What the loop does next after an outcome.
    pub fn next_step(result: EventResult) -> (step: Step)
        ensures
            step@ == step_after(event_result_view(result)),
    {
        if !SessionEventLoop::not_dead(&result) {
            return Step::Stop;
        }
        match SessionEventLoop::into_opt_ok_of_bytes(result) {
            Some(Ok(bytes)) => Step::Transmit(bytes),
            _ => Step::Wait,
        }
    }

    /// The subscription that an outcome has opened, if it has opened one. Its channel is to be
    /// watched, and the subscription ended when the receiving half is gone.
    pub fn opened_subscription(result: &EventResult) -> (opened: Option<SubscriptionId>)
        ensures
            match opened {
                Some(id) => opens(event_result_view(*result)) == Some(id@),
                None => opens(event_result_view(*result)) is None,
            },
    {
        match result {
            Ok((_, Some(MessageToServer::ClientFrame(ClientFrame::Subscribe { id, .. })))) => {
                Some(SubscriptionId(id.clone()))
            },
            _ => None,
        }
    }
}

/// Whether bytes from the server are a heart-beat: an empty line.
pub open spec fn heartbeat(bytes: Seq<u8>) -> bool {
    bytes == seq![10u8] || bytes == seq![13u8, 10u8]
}

/// Whether bytes from the server are a heart-beat.
pub fn is_heartbeat(bytes: &[u8]) -> (is: bool)
    ensures
        is == heartbeat(bytes@),
{
    let is = (bytes.len() == 1 && bytes[0] == 10) || (bytes.len() == 2 && bytes[0] == 13
        && bytes[1] == 10);
    assert(is ==> bytes@ =~= seq![10u8] || bytes@ =~= seq![13u8, 10u8]);
    is
}

/// What bytes from the server mean: a heart-beat, a frame, or neither.
pub open spec fn server_message(bytes: Seq<u8>) -> Result<Option<ServerFrameView>, Seq<char>> {
    if heartbeat(bytes) {
        Ok(None)
    } else {
        match server_frame(bytes) {
            Ok(frame) => Ok(Some(frame)),
            Err(message) => Err(message),
        }
    }
}

/// What was made of bytes from the server, with errors taken by their message.
pub open spec fn server_message_view(
    parsed: Result<Option<ServerFrame>, StompClientError>,
) -> Result<Option<ServerFrameView>, Seq<char>> {
    match parsed {
        Ok(Some(frame)) => Ok(Some(frame@)),
        Ok(None) => Ok(None),
        Err(error) => Err(error@),
    }
}

/// Reads bytes from the server. A heart-beat is no frame.
pub fn parse_server_message(bytes: Vec<u8>) -> (parsed: Result<
    Option<ServerFrame>,
    StompClientError,
>)
    ensures
        server_message_view(parsed) == server_message(bytes@),
        parsed matches Ok(Some(ServerFrame::Message(message))) ==> message.raw@ == bytes@,
{
    if is_heartbeat(bytes.as_slice()) {
        Ok(None)
    } else {
        match parse_server_frame(bytes) {
            Ok(frame) => Ok(Some(frame)),
            Err(error) => Err(StompClientError::from(error)),
        }
    }
}

/// The event for what was made of bytes from the server.
pub open spec fn event_for(parsed: Result<Option<ServerFrameView>, Seq<char>>) -> SessionEventView {
    match parsed {
        Ok(None) => SessionEventView::ServerHeartBeat,
        Ok(Some(frame)) => SessionEventView::ServerFrame(Ok(frame)),
        Err(message) => SessionEventView::ServerFrame(Err(message)),
    }
}

/// The event for what was made of bytes from the server.
pub fn message_event(parsed: Result<Option<ServerFrame>, StompClientError>) -> (event: SessionEvent)
    ensures
        event@ == event_for(server_message_view(parsed)),
{
    match parsed {
        Ok(None) => SessionEvent::ServerHeartBeat,
        Ok(Some(frame)) => SessionEvent::ServerFrame(Ok(frame)),
        Err(error) => SessionEvent::ServerFrame(Err(error)),
    }
}

/// What the stream from the server yields next, with errors taken by their message.
pub open spec fn next_view(next: Option<Result<Vec<u8>, StompClientError>>) -> Option<
    Result<Seq<u8>, Seq<char>>,
> {
    match next {
        None => None,
        Some(Err(error)) => Some(Err(error@)),
        Some(Ok(bytes)) => Some(Ok(bytes@)),
    }
}

/// The event for the next thing that the stream from the server yields: bytes, an error of the
/// connection, or its end.
pub open spec fn server_event_for(next: Option<Result<Seq<u8>, Seq<char>>>) -> SessionEventView {
    match next {
        None => SessionEventView::Disconnected,
        Some(Err(error)) => SessionEventView::ServerFrame(Err(error)),
        Some(Ok(bytes)) => event_for(server_message(bytes)),
    }
}

/// The event for the next thing that the stream from the server yields.
pub fn server_event(next: Option<Result<Vec<u8>, StompClientError>>) -> (event: SessionEvent)
    ensures
        event@ == server_event_for(next_view(next)),
        event@ matches SessionEventView::ServerFrame(Ok(ServerFrameView::Message(message)))
            ==> next matches Some(Ok(bytes)) && message.raw == bytes@,
{
    match next {
        None => SessionEvent::Disconnected,
        Some(Err(error)) => message_event(Err(error)),
        Some(Ok(bytes)) => message_event(parse_server_message(bytes)),
    }
}

/// The event for the next thing that the client asks for. Once nobody can ask any more, the
/// session is closed.
pub open spec fn client_event_for(next: Option<SessionEventView>) -> SessionEventView {
    match next {
        Some(asked) => asked,
        None => SessionEventView::Close,
    }
}

/// The event for the next thing that the client asks for.
pub fn client_event(next: Option<SessionEvent>) -> (event: SessionEvent)
    ensures
        event == (match next {
            Some(asked) => asked,
            None => SessionEvent::Close,
        }),
        event@ == client_event_for(
            match next {
                Some(asked) => Some(asked@),
                None => None,
            },
        ),
{
    match next {
        Some(asked) => asked,
        None => SessionEvent::Close,
    }
}

} // verus!
