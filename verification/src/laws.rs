//! What holds of a session as a whole, for all events and in every state.

use tokio::sync::mpsc::UnboundedSender;
use vstd::prelude::*;
use vstd::utf8::encode_utf8;

use crate::channel::{feeds, OutletView};
use crate::error::StompClientError;
use crate::event_loop::{
    client_event_for, event_for, event_result_view, forwarded_view, forwards, goes_on, handles,
    heartbeat, message_outcome, missing_subscription_text, next_id, next_subscriptions, offered,
    opens, outgoing, response, send_outcome, server_event_for, server_message, step_after,
    subscribe_outcome, unknown_subscription_text, unsubscribe_outcome, EventResult,
    EventResultView, MessageToServerView, SessionEventView, StepView,
};
use crate::frames::{
    connect_bytes, frame_bytes, server_frame, ClientFrameView, MessageFrame, MessageFrameView,
    ServerFrameView, StompVersionView,
};
use crate::handshake::handshake_reply;
use crate::session::{asks_for, IncomingMessageStream};
use crate::table::Subscriptions;
use crate::text::{decimal, decimal_injective};

verus! {

/// The event that the server sent a message.
pub open spec fn message_event_view(message: MessageFrameView) -> SessionEventView {
    SessionEventView::ServerFrame(Ok(ServerFrameView::Message(message)))
}

/// The messages of a subscription go to the channel that it was opened with, and to no other.
pub proof fn subscribing_opens_the_channel(
    subscriptions: Subscriptions,
    destination: Seq<char>,
    sender: UnboundedSender<MessageFrame>,
    message: MessageFrameView,
    taken: bool,
)
    requires
        message.subscription == next_id(subscriptions),
    ensures
        ({
            let id = next_id(subscriptions);
            let opened = next_subscriptions(
                subscriptions,
                SessionEventView::Subscribe(destination, sender),
                taken,
            );
            &&& opened[id] == OutletView::fresh(sender)
            &&& next_subscriptions(opened, message_event_view(message), true) == opened.insert(
                id,
                OutletView { sender, taken: seq![message], refused: Seq::empty() },
            )
        }),
{
    assert(Seq::<MessageFrameView>::empty().push(message) =~= seq![message]);
}

/// Something that the loop has handled, and the outcome.
pub type Handling = (SessionEventView, EventResult);

/// Whether the subscriptions can go through these states as the loop handles these events with
/// these outcomes, one after the other.
pub open spec fn runs(states: Seq<Subscriptions>, handlings: Seq<Handling>) -> bool {
    &&& states.len() == handlings.len() + 1
    &&& forall|i: int|
        0 <= i < handlings.len() ==> handles(
            states[i],
            (#[trigger] handlings[i]).0,
            states[i + 1],
            handlings[i].1,
        )
}

/// Whether no event of a run opens or ends the subscription with this id.
pub open spec fn left_alone(
    states: Seq<Subscriptions>,
    handlings: Seq<Handling>,
    id: Seq<char>,
) -> bool {
    forall|i: int|
        0 <= i < handlings.len() ==> touched(states[i], (#[trigger] handlings[i]).0) != Some(id)
}

/// The messages for a subscription among these events, in order: those with a good outcome, or
/// those with a bad one.
pub open spec fn messages_for(handlings: Seq<Handling>, id: Seq<char>, good: bool) -> Seq<
    MessageFrameView,
> {
    handlings.filter_map(
        |handling: Handling|
            match handling.0 {
                SessionEventView::ServerFrame(Ok(ServerFrameView::Message(message))) =>
                if message.subscription == id && (handling.1 is Ok) == good {
                    Some(message)
                } else {
                    None
                },
                _ => None,
            },
    )
}

/// In the course of a run, the channel of an open subscription is handed exactly the messages for
/// that subscription, each once and in order. It took those with a good outcome and refused the
/// others.
pub proof fn runs_deliver_in_order(
    states: Seq<Subscriptions>,
    handlings: Seq<Handling>,
    id: Seq<char>,
)
    requires
        runs(states, handlings),
        states.first().contains_key(id),
        left_alone(states, handlings, id),
    ensures
        states.last().contains_key(id),
        states.last()[id].sender == states.first()[id].sender,
        states.last()[id].taken == states.first()[id].taken + messages_for(handlings, id, true),
        states.last()[id].refused == states.first()[id].refused + messages_for(
            handlings,
            id,
            false,
        ),
    decreases handlings.len(),
{
    if handlings.len() > 0 {
        let earlier = handlings.drop_last();
        let before = states.drop_last();
        assert forall|i: int| 0 <= i < earlier.len() implies handles(
            before[i],
            (#[trigger] earlier[i]).0,
            before[i + 1],
            earlier[i].1,
        ) && touched(before[i], earlier[i].0) != Some(id) by {
            assert(earlier[i] == handlings[i]);
        }
        runs_deliver_in_order(before, earlier, id);
        let last = handlings.len() - 1;
        assert(handlings[last] == handlings.last());
        assert(handles(before.last(), handlings.last().0, states.last(), handlings.last().1));
    }
}

/// The messages of the subscription that a client has asked for reach the client: from the request
/// on, until an event opens or ends a subscription with its id, the channel that feeds the
/// client's stream is handed exactly the messages for that id, in order. The server is asked for
/// them under that id.
pub proof fn messages_reach_the_subscriber(
    before: Subscriptions,
    request: SessionEventView,
    destination: Seq<char>,
    stream: IncomingMessageStream,
    result: EventResult,
    states: Seq<Subscriptions>,
    handlings: Seq<Handling>,
)
    requires
        asks_for(request, destination, stream),
        runs(states, handlings),
        handles(before, request, states.first(), result),
        left_alone(states, handlings, next_id(before)),
    ensures
        ({
            let id = next_id(before);
            &&& step_after(event_result_view(result)) == StepView::Transmit(
                encode_utf8(
                    "SUBSCRIBE\ndestination:"@ + destination + "\nid:"@ + id + "\nack:auto\n\n"@,
                ) + seq![0u8],
            )
            &&& states.last().contains_key(id)
            &&& feeds(states.last()[id].sender, stream)
            &&& states.last()[id].taken == messages_for(handlings, id, true)
            &&& states.last()[id].refused == messages_for(handlings, id, false)
        }),
{
    frames_are_written_out(ClientFrameView::Subscribe { destination, id: next_id(before) });
    runs_deliver_in_order(states, handlings, next_id(before));
}

/// A message that the server sends for an open subscription goes to its channel, as it was
/// received, and to no other; a channel that takes it leaves the loop waiting for the next event.
pub proof fn received_messages_are_delivered(
    subscriptions: Subscriptions,
    bytes: Seq<u8>,
    message: MessageFrameView,
)
    requires
        server_frame(bytes) == Ok::<ServerFrameView, Seq<char>>(ServerFrameView::Message(message)),
        bytes != seq![10u8],
        bytes != seq![13u8, 10u8],
        subscriptions.contains_key(message.subscription),
    ensures
        ({
            let event = server_event_for(Some(Ok(bytes)));
            let id = message.subscription;
            &&& event.supported()
            &&& next_subscriptions(subscriptions, event, true) == subscriptions.insert(
                id,
                subscriptions[id].after(message, true),
            )
            &&& step_after(response(subscriptions, event, true)) == StepView::Wait
        }),
{
}

/// The server is asked for a subscription under the id that it was opened with, and that is the
/// id whose channel is then watched.
pub proof fn subscribing_asks_the_server(
    subscriptions: Subscriptions,
    destination: Seq<char>,
    sender: UnboundedSender<MessageFrame>,
    taken: bool,
)
    ensures
        ({
            let event = SessionEventView::Subscribe(destination, sender);
            let id = next_id(subscriptions);
            &&& next_subscriptions(subscriptions, event, taken).contains_key(id)
            &&& opens(response(subscriptions, event, taken)) == Some(id)
            &&& step_after(response(subscriptions, event, taken)) == StepView::Transmit(
                encode_utf8(
                    "SUBSCRIBE\ndestination:"@ + destination + "\nid:"@ + id + "\nack:auto\n\n"@,
                ) + seq![0u8],
            )
        }),
{
    let id = next_id(subscriptions);
    frames_are_written_out(ClientFrameView::Subscribe { destination, id });
}

/// Only a request to subscribe opens a subscription.
pub proof fn only_subscribing_opens(
    subscriptions: Subscriptions,
    event: SessionEventView,
    taken: bool,
)
    requires
        event.supported(),
    ensures
        opens(response(subscriptions, event, taken)) is Some <==> event is Subscribe,
{
}

/// Once a subscription has ended, the server has been told so, its messages are refused, and it
/// cannot end again.
pub proof fn unsubscribing_closes_the_channel(
    subscriptions: Subscriptions,
    id: Seq<char>,
    message: MessageFrameView,
    taken: bool,
)
    requires
        subscriptions.contains_key(id),
        message.subscription == id,
    ensures
        ({
            let event = SessionEventView::Unsubscribe(id);
            let after = next_subscriptions(subscriptions, event, taken);
            &&& step_after(response(subscriptions, event, taken)) == StepView::Transmit(
                encode_utf8("UNSUBSCRIBE\nid:"@ + id + "\n\n"@) + seq![0u8],
            )
            &&& next_subscriptions(after, message_event_view(message), taken) == after
            &&& response(after, message_event_view(message), taken) == EventResultView::Err(
                unknown_subscription_text(id),
            )
            &&& response(after, event, taken) == EventResultView::Err(missing_subscription_text(id))
            &&& next_subscriptions(after, event, taken) == after
        }),
{
    let after = next_subscriptions(subscriptions, SessionEventView::Unsubscribe(id), taken);
    frames_are_written_out(ClientFrameView::Unsubscribe { id });
    assert(after.remove(id) =~= after);
}

/// To end a subscription right after it was opened leaves the others as they were. The id must
/// not have been in use.
pub proof fn unsubscribing_undoes_subscribing(
    subscriptions: Subscriptions,
    destination: Seq<char>,
    sender: UnboundedSender<MessageFrame>,
    taken: bool,
)
    requires
        !subscriptions.contains_key(next_id(subscriptions)),
    ensures
        next_subscriptions(
            next_subscriptions(
                subscriptions,
                SessionEventView::Subscribe(destination, sender),
                taken,
            ),
            SessionEventView::Unsubscribe(next_id(subscriptions)),
            taken,
        ) == subscriptions,
{
    let id = next_id(subscriptions);
    assert(subscriptions.insert(id, OutletView::fresh(sender)).remove(id) =~= subscriptions);
}

/// The subscription that an event opens or ends.
pub open spec fn touched(subscriptions: Subscriptions, event: SessionEventView) -> Option<
    Seq<char>,
> {
    match event {
        SessionEventView::Subscribe(_, _) => Some(next_id(subscriptions)),
        SessionEventView::Unsubscribe(id) => Some(id),
        _ => None,
    }
}

/// Whether an event is a message for the subscription with this id.
pub open spec fn is_message_for(event: SessionEventView, id: Seq<char>) -> bool {
    event matches SessionEventView::ServerFrame(Ok(ServerFrameView::Message(message)))
        && message.subscription == id
}

/// No event changes a subscription but the one that it opens or ends, and nothing is handed to a
/// subscription's channel but its messages.
pub proof fn other_subscriptions_stay(
    subscriptions: Subscriptions,
    event: SessionEventView,
    taken: bool,
    id: Seq<char>,
)
    requires
        touched(subscriptions, event) != Some(id),
    ensures
        ({
            let after = next_subscriptions(subscriptions, event, taken);
            &&& after.contains_key(id) == subscriptions.contains_key(id)
            &&& subscriptions.contains_key(id) ==> after[id].sender == subscriptions[id].sender
            &&& subscriptions.contains_key(id) && !is_message_for(event, id) ==> after[id]
                == subscriptions[id]
        }),
{
}

/// There are finitely many subscriptions, whatever happens.
pub proof fn subscriptions_stay_finite(
    subscriptions: Subscriptions,
    event: SessionEventView,
    taken: bool,
)
    requires
        subscriptions.dom().finite(),
    ensures
        next_subscriptions(subscriptions, event, taken).dom().finite(),
{
}

/// Only the client's close and the loss of the connection end a session.
pub proof fn session_ends_when_closed(
    subscriptions: Subscriptions,
    event: SessionEventView,
    taken: bool,
)
    requires
        event.supported(),
    ensures
        step_after(response(subscriptions, event, taken)) is Stop <==> (event is Close
            || event is Disconnected),
{
}

/// An error neither ends the session nor sends anything.
pub proof fn errors_are_survived(
    subscriptions: Subscriptions,
    event: SessionEventView,
    taken: bool,
)
    requires
        response(subscriptions, event, taken) is Err,
    ensures
        step_after(response(subscriptions, event, taken)) == StepView::Wait,
{
}

/// An outcome is an error in these cases only: what came from the server is no frame, a
/// subscription ends that is not open, or a message arrives whose subscription is not open or whose
/// channel refuses it.
pub proof fn errors_have_causes(
    subscriptions: Subscriptions,
    event: SessionEventView,
    taken: bool,
)
    requires
        event.supported(),
    ensures
        response(subscriptions, event, taken) is Err <==> match event {
            SessionEventView::ServerFrame(Err(_)) => true,
            SessionEventView::Unsubscribe(id) => !subscriptions.contains_key(id),
            SessionEventView::ServerFrame(Ok(ServerFrameView::Message(message))) => {
                !subscriptions.contains_key(message.subscription) || !taken
            },
            _ => false,
        },
{
}

/// What the loop makes of an event is an error in these cases only: what came from the server is no
/// frame, a subscription ends that is not open, or a message arrives whose subscription is not open
/// or whose channel has refused it.
pub proof fn handled_errors_have_causes(
    before: Subscriptions,
    event: SessionEventView,
    after: Subscriptions,
    result: EventResult,
)
    requires
        event.supported(),
        handles(before, event, after, result),
    ensures
        result is Err <==> match event {
            SessionEventView::ServerFrame(Err(_)) => true,
            SessionEventView::Unsubscribe(id) => !before.contains_key(id),
            SessionEventView::ServerFrame(Ok(ServerFrameView::Message(message))) => {
                let id = message.subscription;
                !before.contains_key(id) || after[id].refused == before[id].refused.push(message)
            },
            _ => false,
        },
{
    if let SessionEventView::ServerFrame(Ok(ServerFrameView::Message(message))) = event {
        let refused = before[message.subscription].refused;
        assert(refused.len() < refused.push(message).len());
    }
}

/// The loop handles a request of the client as `subscribe`, `unsubscribe` and `send` do when they
/// are called directly: it ends in the same state, with the same outcome.
pub proof fn requests_are_handled_directly(
    before: Subscriptions,
    event: SessionEventView,
    after: Subscriptions,
    result: EventResult,
)
    ensures
        event matches SessionEventView::Subscribe(destination, sender) ==> (handles(
            before,
            event,
            after,
            result,
        ) <==> after == before.insert(next_id(before), OutletView::fresh(sender))
            && event_result_view(result) == subscribe_outcome(before, destination)),
        event matches SessionEventView::Unsubscribe(id) ==> (handles(before, event, after, result)
            <==> after == before.remove(id) && event_result_view(result) == unsubscribe_outcome(
            before,
            id,
        )),
        event matches SessionEventView::Send(destination, content) ==> (handles(
            before,
            event,
            after,
            result,
        ) <==> after == before && event_result_view(result) == send_outcome(destination, content)),
{
    // No channel is asked, so any answer gives the outcome.
    let _ = response(before, event, true);
}

/// The loop handles a message from the server as `forward_message` does when it is called directly:
/// it ends in the same state, a delivery leaves the session waiting, and an error is passed on.
pub proof fn messages_are_handled_directly(
    before: Subscriptions,
    message: MessageFrameView,
    after: Subscriptions,
    result: EventResult,
)
    ensures
        handles(before, message_event_view(message), after, result) <==> exists|
            forwarded: Result<(), StompClientError>,
        | #[trigger]
            forwards(before, message, after, forwarded) && event_result_view(result)
                == message_outcome(forwarded_view(forwarded)),
{
    let event = message_event_view(message);
    // The outcomes of the two answers that the channel may give.
    let _ = response(before, event, true);
    let _ = response(before, event, false);
    if handles(before, event, after, result) {
        let forwarded: Result<(), StompClientError> = match result {
            Ok(_) => Ok(()),
            Err(error) => Err(error),
        };
        assert(forwards(before, message, after, forwarded));
    }
}

/// What the channel of a subscription answers matters only to a message that it is handed.
pub proof fn answer_matters_to_deliveries_only(
    subscriptions: Subscriptions,
    event: SessionEventView,
    taken: bool,
    other: bool,
)
    requires
        event.supported(),
        forall|id: Seq<char>| #[trigger]
            subscriptions.contains_key(id) ==> !is_message_for(event, id),
    ensures
        response(subscriptions, event, taken) == response(subscriptions, event, other),
        next_subscriptions(subscriptions, event, taken) == next_subscriptions(
            subscriptions,
            event,
            other,
        ),
{
}

/// A request to send is answered by a frame with that destination and that content.
pub proof fn sending_reaches_the_server(
    subscriptions: Subscriptions,
    destination: Seq<char>,
    content: Seq<u8>,
    taken: bool,
)
    ensures
        ({
            let event = SessionEventView::Send(destination, content);
            &&& next_subscriptions(subscriptions, event, taken) == subscriptions
            &&& step_after(response(subscriptions, event, taken)) == StepView::Transmit(
                encode_utf8("SEND\ndestination:"@ + destination + "\n\n"@) + content + seq![0u8],
            )
        }),
{
    frames_are_written_out(ClientFrameView::Send { destination, body: content });
}

/// Whether the ids of the open subscriptions are the numbers below their count.
pub open spec fn numbered(subscriptions: Subscriptions) -> bool {
    &&& subscriptions.dom().finite()
    &&& forall|i: nat| i < subscriptions.len() ==> subscriptions.contains_key(#[trigger] decimal(i))
    &&& forall|id: Seq<char>| #[trigger]
        subscriptions.contains_key(id) ==> exists|i: nat|
            i < subscriptions.len() && id == #[trigger] decimal(i)
}

/// A new event loop has its subscriptions numbered.
pub proof fn no_subscriptions_are_numbered()
    ensures
        numbered(Subscriptions::empty()),
{
}

/// As long as the ids of the open subscriptions are the numbers below their count, the next
/// subscription takes the place of none.
pub proof fn numbered_subscriptions_are_kept(subscriptions: Subscriptions)
    requires
        numbered(subscriptions),
    ensures
        !subscriptions.contains_key(next_id(subscriptions)),
{
    let id = next_id(subscriptions);
    if subscriptions.contains_key(id) {
        let i = choose|i: nat| i < subscriptions.len() && id == #[trigger] decimal(i);
        decimal_injective(i, subscriptions.len());
    }
}

/// Until a subscription ends, the ids of the open ones are the numbers below their count.
pub proof fn numbering_is_kept(
    subscriptions: Subscriptions,
    event: SessionEventView,
    taken: bool,
)
    requires
        numbered(subscriptions),
        event matches SessionEventView::Unsubscribe(id) ==> !subscriptions.contains_key(id),
    ensures
        numbered(next_subscriptions(subscriptions, event, taken)),
        next_subscriptions(subscriptions, event, taken).len() == subscriptions.len() + (
        if event is Subscribe {
            1nat
        } else {
            0nat
        }),
{
    match event {
        SessionEventView::Subscribe(_, sender) => {
            let count = subscriptions.len();
            let after = next_subscriptions(subscriptions, event, taken);
            numbered_subscriptions_are_kept(subscriptions);
            assert(after.dom() =~= subscriptions.dom().insert(decimal(count)));
            assert(after.len() == count + 1);
            assert forall|id: Seq<char>| #[trigger] after.contains_key(id) implies exists|i: nat|
                i < after.len() && id == #[trigger] decimal(i) by {
                if subscriptions.contains_key(id) {
                    let i = choose|i: nat| i < subscriptions.len() && id == #[trigger] decimal(i);
                    assert(i < after.len() && id == decimal(i));
                } else {
                    assert(id == decimal(count));
                }
            }
        },
        SessionEventView::Unsubscribe(id) => {
            assert(subscriptions.remove(id) =~= subscriptions);
        },
        SessionEventView::ServerFrame(Ok(ServerFrameView::Message(message))) => {
            let after = offered(subscriptions, message, taken);
            assert(after.dom() =~= subscriptions.dom());
            assert forall|id: Seq<char>| #[trigger] after.contains_key(id) implies exists|i: nat|
                i < after.len() && id == #[trigger] decimal(i) by {
                assert(subscriptions.contains_key(id));
            }
        },
        _ => {},
    }
}

/// After a subscription other than the last one has ended, the next one gets an id that is still
/// in use, and takes its place.
pub proof fn gaps_are_not_filled(
    subscriptions: Subscriptions,
    ended: nat,
    destination: Seq<char>,
    sender: UnboundedSender<MessageFrame>,
    taken: bool,
)
    requires
        numbered(subscriptions),
        ended + 1 < subscriptions.len(),
    ensures
        ({
            let after = next_subscriptions(
                subscriptions,
                SessionEventView::Unsubscribe(decimal(ended)),
                taken,
            );
            let last = decimal((subscriptions.len() - 1) as nat);
            &&& next_id(after) == last
            &&& after.contains_key(last)
            &&& next_subscriptions(
                after,
                SessionEventView::Subscribe(destination, sender),
                taken,
            ) == after.insert(last, OutletView::fresh(sender))
        }),
{
    let count = subscriptions.len();
    let last = (count - 1) as nat;
    let after = subscriptions.remove(decimal(ended));
    assert(subscriptions.contains_key(decimal(ended)));
    assert(subscriptions.contains_key(decimal(last)));
    assert(after.dom() =~= subscriptions.dom().remove(decimal(ended)));
    assert(after.len() == count - 1);
    if decimal(last) == decimal(ended) {
        decimal_injective(last, ended);
    }
}

/// An event, and whether the channel of a subscription takes what the event hands to it.
pub type Incident = (SessionEventView, bool);

/// The subscriptions after a history.
pub open spec fn subscriptions_after(
    subscriptions: Subscriptions,
    history: Seq<Incident>,
) -> Subscriptions
    decreases history.len(),
{
    if history.len() == 0 {
        subscriptions
    } else {
        next_subscriptions(
            subscriptions_after(subscriptions, history.drop_last()),
            history.last().0,
            history.last().1,
        )
    }
}

/// How many of these events ask for a subscription.
pub open spec fn requests(history: Seq<Incident>) -> nat
    decreases history.len(),
{
    if history.len() == 0 {
        0
    } else {
        requests(history.drop_last()) + (if history.last().0 is Subscribe {
            1nat
        } else {
            0nat
        })
    }
}

/// As long as no subscription ends, every request to subscribe adds one, and the ids of the open
/// ones are the numbers below their count.
pub proof fn every_request_adds_a_subscription(
    subscriptions: Subscriptions,
    history: Seq<Incident>,
)
    requires
        numbered(subscriptions),
        forall|i: int| 0 <= i < history.len() ==> !((#[trigger] history[i]).0 is Unsubscribe),
    ensures
        numbered(subscriptions_after(subscriptions, history)),
        subscriptions_after(subscriptions, history).len() == subscriptions.len() + requests(
            history,
        ),
    decreases history.len(),
{
    if history.len() > 0 {
        let earlier = history.drop_last();
        every_request_adds_a_subscription(subscriptions, earlier);
        assert(history[history.len() - 1] == history.last());
        numbering_is_kept(
            subscriptions_after(subscriptions, earlier),
            history.last().0,
            history.last().1,
        );
    }
}

/// The events of a history.
pub open spec fn events(history: Seq<Incident>) -> Seq<SessionEventView> {
    Seq::new(history.len(), |i: int| history[i].0)
}

/// The outcomes of the events of a history.
pub open spec fn outcomes(subscriptions: Subscriptions, history: Seq<Incident>) -> Seq<
    EventResultView,
> {
    Seq::new(
        history.len(),
        |i: int|
            response(
                subscriptions_after(subscriptions, history.take(i)),
                history[i].0,
                history[i].1,
            ),
    )
}

/// What the event loop sends to the server as it takes the step after each of these outcomes.
pub open spec fn transmitted(results: Seq<EventResultView>) -> Seq<Seq<u8>>
    decreases results.len(),
{
    if results.len() == 0 {
        Seq::empty()
    } else {
        let rest = transmitted(results.drop_first());
        match step_after(results.first()) {
            StepView::Stop => Seq::empty(),
            StepView::Wait => rest,
            StepView::Transmit(bytes) => seq![bytes] + rest,
        }
    }
}

/// What the event loop sends to the server in the course of a history.
pub open spec fn transcript(subscriptions: Subscriptions, history: Seq<Incident>) -> Seq<Seq<u8>> {
    transmitted(outcomes(subscriptions, history))
}

/// The bytes of the messages in these outcomes, in order.
pub open spec fn messages(results: Seq<EventResultView>) -> Seq<Seq<u8>> {
    results.filter_map(|result: EventResultView| outgoing(result))
}

proof fn messages_from_the_first(results: Seq<EventResultView>)
    requires
        results.len() > 0,
    ensures
        messages(results) == (match outgoing(results.first()) {
            Some(bytes) => seq![bytes],
            None => Seq::empty(),
        }) + messages(results.drop_first()),
    decreases results.len(),
{
    if results.len() > 1 {
        let rest = results.drop_first();
        messages_from_the_first(results.drop_last());
        assert(results.drop_last().drop_first() =~= rest.drop_last());
        assert(results.drop_last().first() == results.first());
    } else {
        assert(results.drop_last() =~= Seq::empty());
        assert(results.drop_first() =~= Seq::empty());
    }
}

/// The event loop sends to the server exactly the messages of the outcomes, in order, up to the
/// first outcome that ends the session. Errors and outcomes without a message send nothing.
pub proof fn living_outcomes_are_transmitted(results: Seq<EventResultView>, end: int)
    requires
        0 <= end <= results.len(),
        forall|i: int| 0 <= i < end ==> goes_on(#[trigger] results[i]),
        end < results.len() ==> !goes_on(results[end]),
    ensures
        transmitted(results) == messages(results.take(end)),
    decreases results.len(),
{
    if end == 0 {
        assert(results.take(0) =~= Seq::empty());
    } else {
        let rest = results.drop_first();
        assert forall|i: int| 0 <= i < end - 1 implies goes_on(#[trigger] rest[i]) by {
            assert(rest[i] == results[i + 1]);
        }
        living_outcomes_are_transmitted(rest, end - 1);
        messages_from_the_first(results.take(end));
        assert(results.take(end).drop_first() =~= rest.take(end - 1));
        assert(goes_on(results[0]));
    }
}

proof fn dead_outcomes_end_the_transmission(results: Seq<EventResultView>, end: int)
    requires
        0 <= end < results.len(),
        !goes_on(results[end]),
    ensures
        transmitted(results) == transmitted(results.take(end)),
    decreases results.len(),
{
    if end > 0 {
        let rest = results.drop_first();
        assert(rest[end - 1] == results[end]);
        dead_outcomes_end_the_transmission(rest, end - 1);
        assert(results.take(end).drop_first() =~= rest.take(end - 1));
    }
}

/// Once the session is closed or the connection lost, nothing is sent any more, whatever comes
/// after.
pub proof fn nothing_is_sent_after_the_end(
    subscriptions: Subscriptions,
    before: Seq<Incident>,
    end: Incident,
    after: Seq<Incident>,
)
    requires
        end.0 is Close || end.0 is Disconnected,
    ensures
        transcript(subscriptions, before.push(end) + after) == transcript(subscriptions, before),
{
    let history = before.push(end) + after;
    let count = before.len() as int;
    assert(history[count] == end);
    dead_outcomes_end_the_transmission(outcomes(subscriptions, history), count);
    assert forall|i: int| 0 <= i < count implies outcomes(subscriptions, history)[i] == outcomes(
        subscriptions,
        before,
    )[i] by {
        assert(history.take(i) =~= before.take(i));
    }
    assert(outcomes(subscriptions, history).take(count) =~= outcomes(subscriptions, before));
}

/// The outcomes of a run.
pub open spec fn results(handlings: Seq<Handling>) -> Seq<EventResultView> {
    Seq::new(handlings.len(), |i: int| event_result_view(handlings[i].1))
}

proof fn states_follow_the_history(
    states: Seq<Subscriptions>,
    history: Seq<Incident>,
    count: int,
)
    requires
        states.len() == history.len() + 1,
        forall|i: int|
            0 <= i < history.len() ==> states[i + 1] == next_subscriptions(
                states[i],
                (#[trigger] history[i]).0,
                history[i].1,
            ),
        0 <= count <= history.len(),
    ensures
        subscriptions_after(states.first(), history.take(count)) == states[count],
    decreases count,
{
    if count > 0 {
        states_follow_the_history(states, history, count - 1);
        assert(history.take(count).drop_last() =~= history.take(count - 1));
        assert(history.take(count).last() == history[count - 1]);
    }
}

/// Every run is a history: there are answers of the subscribers' channels under which the
/// subscriptions go through these states, these are the outcomes, and what the loop sends to the
/// server is the transcript.
pub proof fn runs_are_histories(states: Seq<Subscriptions>, handlings: Seq<Handling>)
    requires
        runs(states, handlings),
    ensures
        exists|history: Seq<Incident>|
            {
                &&& #[trigger] events(history) == Seq::new(
                    handlings.len(),
                    |i: int| handlings[i].0,
                )
                &&& subscriptions_after(states.first(), history) == states.last()
                &&& outcomes(states.first(), history) == results(handlings)
                &&& transcript(states.first(), history) == transmitted(results(handlings))
            },
{
    let history: Seq<Incident> = Seq::new(
        handlings.len(),
        |i: int|
            (
                handlings[i].0,
                choose|taken: bool|
                    states[i + 1] == next_subscriptions(states[i], handlings[i].0, taken)
                        && event_result_view(handlings[i].1) == #[trigger] response(
                        states[i],
                        handlings[i].0,
                        taken,
                    ),
            ),
    );
    assert forall|i: int| 0 <= i < history.len() implies states[i + 1] == next_subscriptions(
        states[i],
        (#[trigger] history[i]).0,
        history[i].1,
    ) && event_result_view(handlings[i].1) == response(states[i], history[i].0, history[i].1) by {
        assert(handles(states[i], handlings[i].0, states[i + 1], handlings[i].1));
    }
    assert forall|i: int| 0 <= i < history.len() implies outcomes(states.first(), history)[i]
        == results(handlings)[i] by {
        states_follow_the_history(states, history, i);
        assert(history[i].0 == handlings[i].0);
    }
    states_follow_the_history(states, history, history.len() as int);
    assert(history.take(history.len() as int) =~= history);
    assert(outcomes(states.first(), history) =~= results(handlings));
    assert(events(history) =~= Seq::new(handlings.len(), |i: int| handlings[i].0));
}

/// The events of a stream from the server that yields these items and then ends.
pub open spec fn server_events(items: Seq<Result<Seq<u8>, Seq<char>>>) -> Seq<SessionEventView> {
    Seq::new(
        items.len(),
        |i: int| server_event_for(Some(items[i])),
    ).push(server_event_for(None))
}

/// A stream from the server causes one event for each item, in order, and one more for its end.
/// Only the end is the loss of the connection.
pub proof fn server_streams_end_with_disconnected(items: Seq<Result<Seq<u8>, Seq<char>>>)
    ensures
        server_events(items).len() == items.len() + 1,
        forall|i: int|
            0 <= i < items.len() ==> #[trigger] server_events(items)[i] == (match items[i] {
                Ok(bytes) => if bytes == seq![10u8] || bytes == seq![13u8, 10u8] {
                    SessionEventView::ServerHeartBeat
                } else {
                    SessionEventView::ServerFrame(server_frame(bytes))
                },
                Err(error) => SessionEventView::ServerFrame(Err(error)),
            }),
        forall|i: int|
            0 <= i <= items.len() ==> (#[trigger] server_events(items)[i] is Disconnected <==> i
                == items.len()),
{
}

/// The events of a client that asks for these things and can then ask for nothing more.
pub open spec fn client_events(asked: Seq<SessionEventView>) -> Seq<SessionEventView> {
    Seq::new(asked.len(), |i: int| client_event_for(Some(asked[i]))).push(client_event_for(None))
}

/// The events of a client are what it asks for, in order, and then the close of the session.
pub proof fn client_streams_end_with_close(asked: Seq<SessionEventView>)
    ensures
        client_events(asked) == asked.push(SessionEventView::Close),
{
    assert(client_events(asked) =~= asked.push(SessionEventView::Close));
}

/// Text takes at least as many bytes as it has characters.
proof fn encoding_is_no_shorter(text: Seq<char>)
    ensures
        encode_utf8(text).len() >= text.len(),
    decreases text.len(),
{
    if text.len() > 0 {
        encoding_is_no_shorter(text.drop_first());
    }
}

proof fn long_frames_are_no_heartbeats(head: Seq<char>, body: Seq<u8>)
    requires
        head.len() >= 1,
    ensures
        !heartbeat(frame_bytes(head, body)),
        frame_bytes(head, body).last() == 0,
{
    reveal_strlit("\n");
    encoding_is_no_shorter(head + "\n"@);
    assert(frame_bytes(head, body).len() >= 3);
}

/// The frames of the client, written out. Destination, id and content stand there as they are.
pub proof fn frames_are_written_out(frame: ClientFrameView)
    ensures
        frame.bytes() == (match frame {
            ClientFrameView::Subscribe { destination, id } => encode_utf8(
                "SUBSCRIBE\ndestination:"@ + destination + "\nid:"@ + id + "\nack:auto\n\n"@,
            ) + seq![0u8],
            ClientFrameView::Unsubscribe { id } => encode_utf8(
                "UNSUBSCRIBE\nid:"@ + id + "\n\n"@,
            ) + seq![0u8],
            ClientFrameView::Send { destination, body } => encode_utf8(
                "SEND\ndestination:"@ + destination + "\n\n"@,
            ) + body + seq![0u8],
        }),
{
    reveal_strlit("\n");
    reveal_strlit("\n\n");
    reveal_strlit("\nack:auto\n");
    reveal_strlit("\nack:auto\n\n");
    match frame {
        ClientFrameView::Subscribe { destination, id } => {
            let head = "SUBSCRIBE\ndestination:"@ + destination + "\nid:"@ + id;
            assert(head + "\nack:auto\n"@ + "\n"@ =~= head + "\nack:auto\n\n"@);
            assert(frame.bytes() =~= encode_utf8(head + "\nack:auto\n\n"@) + seq![0u8]);
        },
        ClientFrameView::Unsubscribe { id } => {
            let head = "UNSUBSCRIBE\nid:"@ + id;
            assert(head + "\n"@ + "\n"@ =~= head + "\n\n"@);
            assert(frame.bytes() =~= encode_utf8(head + "\n\n"@) + seq![0u8]);
        },
        ClientFrameView::Send { destination, .. } => {
            let head = "SEND\ndestination:"@ + destination;
            assert(head + "\n"@ + "\n"@ =~= head + "\n\n"@);
        },
    }
}

/// The frame that opens a session, written out: it asks for version 1.2 alone.
pub proof fn connecting_is_written_out(host: Seq<char>)
    ensures
        connect_bytes(host, StompVersionView::V1_2) == encode_utf8(
            "CONNECT\nhost:"@ + host + "\naccept-version:1.2\nheart-beat:0,0\n\n"@,
        ) + seq![0u8],
{
    reveal_strlit("\n");
    reveal_strlit("1.2");
    reveal_strlit("\naccept-version:");
    reveal_strlit("\nheart-beat:0,0\n");
    reveal_strlit("\naccept-version:1.2\nheart-beat:0,0\n\n");
    let head = "CONNECT\nhost:"@ + host;
    let tail = "\naccept-version:1.2\nheart-beat:0,0\n\n"@;
    assert(head + "\naccept-version:"@ + "1.2"@ + "\nheart-beat:0,0\n"@ + "\n"@ =~= head + tail);
    assert(connect_bytes(host, StompVersionView::V1_2) =~= encode_utf8(head + tail) + seq![0u8]);
}

/// A frame of the client is never mistaken for a heart-beat, and ends with a zero.
pub proof fn frames_are_no_heartbeats(frame: ClientFrameView)
    ensures
        !heartbeat(frame.bytes()),
        frame.bytes().last() == 0,
{
    reveal_strlit("SUBSCRIBE\ndestination:");
    reveal_strlit("UNSUBSCRIBE\nid:");
    reveal_strlit("SEND\ndestination:");
    long_frames_are_no_heartbeats(frame.head(), frame.body());
}

/// The frame that opens a session is never mistaken for a heart-beat, and ends with a zero.
pub proof fn connect_is_no_heartbeat(host: Seq<char>, version: StompVersionView)
    ensures
        !heartbeat(connect_bytes(host, version)),
        connect_bytes(host, version).last() == 0,
{
    reveal_strlit("CONNECT\nhost:");
    long_frames_are_no_heartbeats(
        "CONNECT\nhost:"@ + host + "\naccept-version:"@ + version.number()
            + "\nheart-beat:0,0\n"@,
        Seq::empty(),
    );
}

/// What the client sends as a heart-beat is one.
pub proof fn heartbeats_are_recognised()
    ensures
        heartbeat(MessageToServerView::Heartbeat.bytes()),
{
}

/// The server's heart-beats are taken for such, whatever the parser would make of them.
pub proof fn heartbeats_are_no_frames(bytes: Seq<u8>)
    requires
        bytes == seq![10u8] || bytes == seq![13u8, 10u8],
    ensures
        event_for(server_message(bytes)) == SessionEventView::ServerHeartBeat,
{
}

/// A session is established exactly if the server's first reply is a `CONNECTED` frame for
/// version 1.2 of the protocol. There is no verdict exactly if it is one for an unknown version.
pub proof fn handshake_needs_version_1_2(bytes: Seq<u8>)
    ensures
        handshake_reply(bytes).verdict() is Ok <==> server_frame(bytes)
            == Ok::<ServerFrameView, Seq<char>>(ServerFrameView::Connected(StompVersionView::V1_2)),
        !handshake_reply(bytes).printable() <==> server_frame(bytes) matches Ok(
            ServerFrameView::Connected(StompVersionView::Unknown(_)),
        ),
{
}

} // verus!
