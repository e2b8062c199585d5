//! The channels of `tokio` that carry events to the event loop and messages to subscribers.

use tokio::sync::mpsc::{UnboundedReceiver, UnboundedSender};
use tokio_stream::wrappers::UnboundedReceiverStream;
use vstd::prelude::*;

use crate::frames::MessageFrame;

verus! {

/// `tokio::sync::mpsc::UnboundedSender`: the sending half of a channel.
#[verifier::external_type_specification]
#[verifier::external_body]
#[verifier::reject_recursive_types(T)]
pub struct ExUnboundedSender<T>(UnboundedSender<T>);

/// `tokio::sync::mpsc::UnboundedReceiver`: the receiving half of a channel.
#[verifier::external_type_specification]
#[verifier::external_body]
#[verifier::reject_recursive_types(T)]
pub struct ExUnboundedReceiver<T>(UnboundedReceiver<T>);

/// `tokio_stream::wrappers::UnboundedReceiverStream`: a receiving half as a stream.
#[verifier::external_type_specification]
#[verifier::external_body]
#[verifier::reject_recursive_types(T)]
pub struct ExUnboundedReceiverStream<T>(UnboundedReceiverStream<T>);

/// Whether two halves belong to one channel: what is sent on `sender` is what `receiver` receives,
/// in the same order.
pub uninterp spec fn joined(
    sender: UnboundedSender<MessageFrame>,
    receiver: UnboundedReceiver<MessageFrame>,
) -> bool;

/// The receiving half that a stream was made of: the stream yields what that half receives.
pub uninterp spec fn source_of(
    stream: UnboundedReceiverStream<MessageFrame>,
) -> UnboundedReceiver<MessageFrame>;

/// Whether a stream yields what is sent on `sender`.
pub open spec fn feeds(
    sender: UnboundedSender<MessageFrame>,
    stream: UnboundedReceiverStream<MessageFrame>,
) -> bool {
    joined(sender, source_of(stream))
}

/// `tokio::sync::mpsc::unbounded_channel`, for messages: the two halves that it returns belong to
/// one channel. When the receiving half receives a message, or is closed, is not stated: that is
/// up to the task that holds it.
#[verifier::external_body]
pub(crate) fn message_channel() -> (halves: (
    UnboundedSender<MessageFrame>,
    UnboundedReceiver<MessageFrame>,
))
    ensures
        joined(halves.0, halves.1),
{
    tokio::sync::mpsc::unbounded_channel()
}

/// `UnboundedReceiverStream::new`, for messages: the stream is made of the receiving half that is
/// passed in.
#[verifier::external_body]
pub(crate) fn message_stream(receiver: UnboundedReceiver<MessageFrame>) -> (stream:
    UnboundedReceiverStream<MessageFrame>)
    ensures
        source_of(stream) == receiver,
{
    UnboundedReceiverStream::new(receiver)
}

/// A sending half that is used in one place only, with the log of what it was handed there.
///
/// The half is out of reach for everyone else: whoever holds an outlet can hand it a message, and
/// the log then shows so.
#[verifier::reject_recursive_types(T)]
pub struct Outlet<T: View> {
    sender: UnboundedSender<T>,
    taken: Ghost<Seq<T::V>>,
    refused: Ghost<Seq<T::V>>,
}

/// A sending half, and the messages that it was handed, in order: those that the channel took,
/// and those that it refused.
#[verifier::reject_recursive_types(T)]
pub struct OutletView<T: View> {
    pub sender: UnboundedSender<T>,
    pub taken: Seq<T::V>,
    pub refused: Seq<T::V>,
}

impl<T: View> View for Outlet<T> {
    type V = OutletView<T>;

    closed spec fn view(&self) -> OutletView<T> {
        OutletView { sender: self.sender, taken: self.taken@, refused: self.refused@ }
    }
}

impl<T: View> OutletView<T> {
    /// A sending half that has not been handed anything.
    pub open spec fn fresh(sender: UnboundedSender<T>) -> OutletView<T> {
        OutletView { sender, taken: Seq::empty(), refused: Seq::empty() }
    }

    /// This outlet after it was handed one more message, which the channel took or refused.
    pub open spec fn after(self, message: T::V, taken: bool) -> OutletView<T> {
        if taken {
            OutletView { taken: self.taken.push(message), ..self }
        } else {
            OutletView { refused: self.refused.push(message), ..self }
        }
    }
}

impl<T: View> Outlet<T> {
    /// An outlet that has not been handed anything.
    pub fn new(sender: UnboundedSender<T>) -> (outlet: Outlet<T>)
        ensures
            outlet@ == OutletView::fresh(sender),
    {
        Outlet { sender, taken: Ghost(Seq::empty()), refused: Ghost(Seq::empty()) }
    }

    /// `UnboundedSender::send`, with the error put into words by its own `Display`.
    ///
    /// The message is handed over once. Whether it is taken depends on the receiving half, which
    /// lives elsewhere: it is refused once that half is closed or gone. A refusal always reads
    /// "channel closed".
    #[verifier::external_body]
    pub(crate) fn hand_over(&mut self, message: T) -> (answer: Result<(), String>)
        ensures
            final(self)@ == old(self)@.after(message@, answer is Ok),
            answer matches Err(refusal) ==> refusal@ == "channel closed"@,
    {
        self.sender.send(message).map_err(|error| error.to_string())
    }
}

} // verus!
