//! The two channels between the driver and the MAC layer.
//!
//! Each is an `embassy_sync::channel::Channel` that holds one message. A
//! channel changes behind shared references, under the hands of two tasks, so
//! nothing is said here of what it holds once it has been made. Each handle on an
//! end of it instead has a log: the calls that were made through this handle,
//! in order, each with its outcome. Handles are not copied, and every call
//! takes its handle by `&mut`, so a log grows only by the calls below.
//!
//! The calls that take a [`core::task::Context`] leave its waker with the
//! channel. Each call may wake a task whose waker was left there; a waker that
//! uses the channel from within its own `wake` makes `embassy_sync` panic.

use core::task::{Context, Waker};

use embassy_sync::blocking_mutex::raw::NoopRawMutex;
use embassy_sync::channel::{Channel, Receiver, Sender, TrySendError};
use vstd::prelude::*;

use crate::mac::{MacIndication, MacRequest};

verus! {

/// A call on the sending end of a channel, with its outcome.
pub enum SendEvent<T> {
    /// The channel was asked whether it has room, and left a waker to wake
    /// once it has.
    Polled { ready: bool, waker: Waker },
    /// The channel took the message.
    Sent(T),
    /// The channel was full and gave the message back.
    Refused(T),
}

/// A call on the receiving end of a channel, with its outcome.
pub enum ReceiveEvent<T> {
    /// The channel was asked whether it holds a message, and left a waker to
    /// wake once it does.
    Polled { ready: bool, waker: Waker },
    /// The channel gave this message out.
    Received(T),
    /// The channel was found empty.
    Empty,
}

/// The messages that a channel took, in the order in which it took them.
pub open spec fn sent_messages<T>(log: Seq<SendEvent<T>>) -> Seq<T>
    decreases log.len(),
{
    if log.len() == 0 {
        Seq::empty()
    } else {
        let before = sent_messages(log.drop_last());
        match log.last() {
            SendEvent::Sent(message) => before.push(message),
            _ => before,
        }
    }
}

/// The messages that a channel gave out, in the order in which it gave them
/// out.
pub open spec fn received_messages<T>(log: Seq<ReceiveEvent<T>>) -> Seq<T>
    decreases log.len(),
{
    if log.len() == 0 {
        Seq::empty()
    } else {
        let before = received_messages(log.drop_last());
        match log.last() {
            ReceiveEvent::Received(message) => before.push(message),
            _ => before,
        }
    }
}

/// A message is offered to a channel: the channel is asked for room and, where
/// it has some, given the message. `taken` tells whether the channel took it.
pub open spec fn offered<T>(
    before: Seq<SendEvent<T>>,
    waker: Waker,
    message: T,
    taken: bool,
    after: Seq<SendEvent<T>>,
) -> bool {
    if taken {
        after == before.push(SendEvent::Polled { ready: true, waker }).push(
            SendEvent::Sent(message),
        )
    } else {
        ||| after == before.push(SendEvent::Polled { ready: false, waker })
        ||| after == before.push(SendEvent::Polled { ready: true, waker }).push(
            SendEvent::Refused(message),
        )
    }
}

/// A message is sent at once where the channel takes it; where the channel is
/// full and gives it back, a waker is left to try again. `taken` tells whether
/// the channel took it.
pub open spec fn sent_or_waits<T>(
    before: Seq<SendEvent<T>>,
    waker: Waker,
    message: T,
    taken: bool,
    after: Seq<SendEvent<T>>,
) -> bool {
    if taken {
        after == before.push(SendEvent::Sent(message))
    } else {
        ||| after == before.push(SendEvent::Refused(message)).push(
            SendEvent::Polled { ready: false, waker },
        )
        ||| after == before.push(SendEvent::Refused(message)).push(
            SendEvent::Polled { ready: true, waker },
        )
    }
}

/// A channel is asked for a message and, where it says that it has one, the
/// message is taken. `message` is what came.
pub open spec fn fetched<T>(
    before: Seq<ReceiveEvent<T>>,
    waker: Waker,
    message: Option<T>,
    after: Seq<ReceiveEvent<T>>,
) -> bool {
    match message {
        Some(received) => after == before.push(ReceiveEvent::Polled { ready: true, waker }).push(
            ReceiveEvent::Received(received),
        ),
        None => {
            ||| after == before.push(ReceiveEvent::Polled { ready: false, waker })
            ||| after == before.push(ReceiveEvent::Polled { ready: true, waker }).push(
                ReceiveEvent::Empty,
            )
        },
    }
}

/// The next call on the sending end left this waker with the channel.
pub open spec fn left_with_sender<T>(
    before: Seq<SendEvent<T>>,
    waker: Waker,
    after: Seq<SendEvent<T>>,
) -> bool {
    &&& after.len() > before.len()
    &&& after[before.len() as int] matches SendEvent::Polled { waker: left, .. } && left == waker
}

/// The next call on the receiving end left this waker with the channel.
pub open spec fn left_with_receiver<T>(
    before: Seq<ReceiveEvent<T>>,
    waker: Waker,
    after: Seq<ReceiveEvent<T>>,
) -> bool {
    &&& after.len() > before.len()
    &&& after[before.len() as int] matches ReceiveEvent::Polled { waker: left, .. } && left == waker
}

/// `core::task::Waker`, by which a task is woken.
#[verifier::external_type_specification]
#[verifier::external_body]
pub struct ExWaker(Waker);

/// `core::task::Context`, which holds the waker of the task that polls.
#[verifier::external_type_specification]
#[verifier::external_body]
pub struct ExContext<'a>(Context<'a>);

/// The channel of requests, from the driver to the MAC layer.
#[verifier::external_body]
pub struct RequestChannel {
    channel: Channel<NoopRawMutex, MacRequest, 1>,
}

/// The driver's end of a [`RequestChannel`].
#[verifier::external_body]
pub struct RequestSender<'ch> {
    sender: Sender<'ch, NoopRawMutex, MacRequest, 1>,
}

/// The MAC layer's end of a [`RequestChannel`].
#[verifier::external_body]
pub struct RequestReceiver<'ch> {
    receiver: Receiver<'ch, NoopRawMutex, MacRequest, 1>,
}

/// The channel of indications, from the MAC layer to the driver.
#[verifier::external_body]
pub struct IndicationChannel {
    channel: Channel<NoopRawMutex, MacIndication, 1>,
}

/// The MAC layer's end of an [`IndicationChannel`].
#[verifier::external_body]
pub struct IndicationSender<'ch> {
    sender: Sender<'ch, NoopRawMutex, MacIndication, 1>,
}

/// The driver's end of an [`IndicationChannel`].
#[verifier::external_body]
pub struct IndicationReceiver<'ch> {
    receiver: Receiver<'ch, NoopRawMutex, MacIndication, 1>,
}

/// The two channels of one link.
pub struct Links {
    /// The channel that requests go through.
    pub requests: RequestChannel,
    /// The channel that indications go through.
    pub indications: IndicationChannel,
}

impl Links {
    /// The channels held no message when they were made.
    pub open spec fn starts_empty(self) -> bool {
        &&& initial_requests(self.requests) == Seq::<MacRequest>::empty()
        &&& initial_indications(self.indications) == Seq::<MacIndication>::empty()
    }

    /// Makes two new channels, with no message in either.
    pub fn new() -> (links: Self)
        ensures
            links.starts_empty(),
    {
        Links { requests: RequestChannel::new(), indications: IndicationChannel::new() }
    }
}

/// What `Context::waker` returns: the waker of the task that polls.
pub uninterp spec fn waker_of(cx: Context<'_>) -> Waker;

/// The messages that a channel of requests held when it was made.
pub uninterp spec fn initial_requests(channel: RequestChannel) -> Seq<MacRequest>;

/// The messages that a channel of indications held when it was made.
pub uninterp spec fn initial_indications(channel: IndicationChannel) -> Seq<MacIndication>;

/// The channel that a handle sends requests into.
pub uninterp spec fn request_target(sender: RequestSender<'_>) -> RequestChannel;

/// The calls made through a handle that sends requests.
pub uninterp spec fn request_send_log(sender: RequestSender<'_>) -> Seq<SendEvent<MacRequest>>;

/// The channel that a handle takes requests from.
pub uninterp spec fn request_source(receiver: RequestReceiver<'_>) -> RequestChannel;

/// The calls made through a handle that takes requests.
pub uninterp spec fn request_receive_log(receiver: RequestReceiver<'_>) -> Seq<
    ReceiveEvent<MacRequest>,
>;

/// The channel that a handle sends indications into.
pub uninterp spec fn indication_target(sender: IndicationSender<'_>) -> IndicationChannel;

/// The calls made through a handle that sends indications.
pub uninterp spec fn indication_send_log(sender: IndicationSender<'_>) -> Seq<
    SendEvent<MacIndication>,
>;

/// The channel that a handle takes indications from.
pub uninterp spec fn indication_source(receiver: IndicationReceiver<'_>) -> IndicationChannel;

/// The calls made through a handle that takes indications.
pub uninterp spec fn indication_receive_log(receiver: IndicationReceiver<'_>) -> Seq<
    ReceiveEvent<MacIndication>,
>;

impl RequestChannel {
    /// Calls `Channel::new`, which makes a channel with an empty queue. What the
    /// channel holds later is left unsaid: it changes behind shared references.
    #[verifier::external_body]
    pub(crate) fn new() -> (channel: Self)
        ensures
            initial_requests(channel) == Seq::<MacRequest>::empty(),
    {
        RequestChannel { channel: Channel::new() }
    }

    /// Calls `Channel::sender`: a handle on this channel, through which nothing
    /// has been done yet.
    #[verifier::external_body]
    pub(crate) fn sender(&self) -> (sender: RequestSender<'_>)
        ensures
            request_target(sender) == *self,
            request_send_log(sender) == Seq::<SendEvent<MacRequest>>::empty(),
    {
        RequestSender { sender: self.channel.sender() }
    }

    /// Calls `Channel::receiver`: a handle on this channel, through which
    /// nothing has been done yet.
    #[verifier::external_body]
    pub(crate) fn receiver(&self) -> (receiver: RequestReceiver<'_>)
        ensures
            request_source(receiver) == *self,
            request_receive_log(receiver) == Seq::<ReceiveEvent<MacRequest>>::empty(),
    {
        RequestReceiver { receiver: self.channel.receiver() }
    }
}

impl<'ch> RequestSender<'ch> {
    /// The channel that the handle sends into.
    pub open spec fn target(self) -> RequestChannel {
        request_target(self)
    }

    /// The calls made through the handle.
    pub open spec fn log(self) -> Seq<SendEvent<MacRequest>> {
        request_send_log(self)
    }

    /// Calls `Sender::poll_ready_to_send`, which leaves the waker of `cx` with
    /// the channel and answers whether the channel has room. When it has is up
    /// to the other end.
    #[verifier::external_body]
    pub(crate) fn poll_ready_to_send(&mut self, cx: &mut Context<'_>) -> (ready: bool)
        ensures
            waker_of(*final(cx)) == waker_of(*old(cx)),
            request_target(*final(self)) == request_target(*old(self)),
            request_send_log(*final(self)) == request_send_log(*old(self)).push(
                SendEvent::Polled { ready, waker: waker_of(*old(cx)) },
            ),
    {
        self.sender.poll_ready_to_send(cx).is_ready()
    }

    /// Calls `Sender::try_send`: either the channel takes the message, or it is
    /// full and gives the same message back. Which of them is up to the other
    /// end.
    #[verifier::external_body]
    pub(crate) fn try_send(&mut self, message: MacRequest) -> (outcome: Result<(), MacRequest>)
        ensures
            request_target(*final(self)) == request_target(*old(self)),
            match outcome {
                Ok(()) => request_send_log(*final(self)) == request_send_log(*old(self)).push(
                    SendEvent::Sent(message),
                ),
                Err(returned) => returned == message && request_send_log(*final(self))
                    == request_send_log(*old(self)).push(SendEvent::Refused(message)),
            },
    {
        match self.sender.try_send(message) {
            Ok(()) => Ok(()),
            Err(TrySendError::Full(returned)) => Err(returned),
        }
    }
}

impl<'ch> RequestReceiver<'ch> {
    /// The channel that the handle takes from.
    pub open spec fn source(self) -> RequestChannel {
        request_source(self)
    }

    /// The calls made through the handle.
    pub open spec fn log(self) -> Seq<ReceiveEvent<MacRequest>> {
        request_receive_log(self)
    }

    /// Calls `Receiver::poll_receive`, which takes the oldest message out of
    /// the channel or, where there is none, leaves the waker of `cx` with it.
    /// What comes is up to the other end.
    #[verifier::external_body]
    pub(crate) fn poll_receive(&mut self, cx: &mut Context<'_>) -> (message: Option<MacRequest>)
        ensures
            waker_of(*final(cx)) == waker_of(*old(cx)),
            request_source(*final(self)) == request_source(*old(self)),
            request_receive_log(*final(self)) == request_receive_log(*old(self)).push(
                match message {
                    Some(request) => ReceiveEvent::Received(request),
                    None => ReceiveEvent::Polled { ready: false, waker: waker_of(*old(cx)) },
                },
            ),
    {
        match self.receiver.poll_receive(cx) {
            core::task::Poll::Ready(request) => Some(request),
            core::task::Poll::Pending => None,
        }
    }
}

impl IndicationChannel {
    /// Calls `Channel::new`, which makes a channel with an empty queue. What the
    /// channel holds later is left unsaid: it changes behind shared references.
    #[verifier::external_body]
    pub(crate) fn new() -> (channel: Self)
        ensures
            initial_indications(channel) == Seq::<MacIndication>::empty(),
    {
        IndicationChannel { channel: Channel::new() }
    }

    /// Calls `Channel::sender`: a handle on this channel, through which nothing
    /// has been done yet.
    #[verifier::external_body]
    pub(crate) fn sender(&self) -> (sender: IndicationSender<'_>)
        ensures
            indication_target(sender) == *self,
            indication_send_log(sender) == Seq::<SendEvent<MacIndication>>::empty(),
    {
        IndicationSender { sender: self.channel.sender() }
    }

    /// Calls `Channel::receiver`: a handle on this channel, through which
    /// nothing has been done yet.
    #[verifier::external_body]
    pub(crate) fn receiver(&self) -> (receiver: IndicationReceiver<'_>)
        ensures
            indication_source(receiver) == *self,
            indication_receive_log(receiver) == Seq::<ReceiveEvent<MacIndication>>::empty(),
    {
        IndicationReceiver { receiver: self.channel.receiver() }
    }
}

impl<'ch> IndicationSender<'ch> {
    /// The channel that the handle sends into.
    pub open spec fn target(self) -> IndicationChannel {
        indication_target(self)
    }

    /// The calls made through the handle.
    pub open spec fn log(self) -> Seq<SendEvent<MacIndication>> {
        indication_send_log(self)
    }

    /// Calls `Sender::poll_ready_to_send`, which leaves the waker of `cx` with
    /// the channel and answers whether the channel has room. When it has is up
    /// to the other end.
    #[verifier::external_body]
    pub(crate) fn poll_ready_to_send(&mut self, cx: &mut Context<'_>) -> (ready: bool)
        ensures
            waker_of(*final(cx)) == waker_of(*old(cx)),
            indication_target(*final(self)) == indication_target(*old(self)),
            indication_send_log(*final(self)) == indication_send_log(*old(self)).push(
                SendEvent::Polled { ready, waker: waker_of(*old(cx)) },
            ),
    {
        self.sender.poll_ready_to_send(cx).is_ready()
    }

    /// Calls `Sender::try_send`: either the channel takes the message, or it is
    /// full and gives the same message back. Which of them is up to the other
    /// end.
    #[verifier::external_body]
    pub(crate) fn try_send(&mut self, message: MacIndication) -> (outcome: Result<
        (),
        MacIndication,
    >)
        ensures
            indication_target(*final(self)) == indication_target(*old(self)),
            match outcome {
                Ok(()) => indication_send_log(*final(self)) == indication_send_log(*old(self)).push(
                    SendEvent::Sent(message),
                ),
                Err(returned) => returned == message && indication_send_log(*final(self))
                    == indication_send_log(*old(self)).push(SendEvent::Refused(message)),
            },
    {
        match self.sender.try_send(message) {
            Ok(()) => Ok(()),
            Err(TrySendError::Full(returned)) => Err(returned),
        }
    }
}

impl<'ch> IndicationReceiver<'ch> {
    /// The channel that the handle takes from.
    pub open spec fn source(self) -> IndicationChannel {
        indication_source(self)
    }

    /// The calls made through the handle.
    pub open spec fn log(self) -> Seq<ReceiveEvent<MacIndication>> {
        indication_receive_log(self)
    }

    /// Calls `Receiver::poll_ready_to_receive`, which leaves the waker of `cx`
    /// with the channel and answers whether the channel holds a message. When
    /// it does is up to the other end.
    #[verifier::external_body]
    pub(crate) fn poll_ready_to_receive(&mut self, cx: &mut Context<'_>) -> (ready: bool)
        ensures
            waker_of(*final(cx)) == waker_of(*old(cx)),
            indication_source(*final(self)) == indication_source(*old(self)),
            indication_receive_log(*final(self)) == indication_receive_log(*old(self)).push(
                ReceiveEvent::Polled { ready, waker: waker_of(*old(cx)) },
            ),
    {
        self.receiver.poll_ready_to_receive(cx).is_ready()
    }

    /// Calls `Receiver::try_receive`, which takes the oldest message out of the
    /// channel, if there is one. What comes is up to the other end.
    #[verifier::external_body]
    pub(crate) fn try_receive(&mut self) -> (message: Option<MacIndication>)
        ensures
            indication_source(*final(self)) == indication_source(*old(self)),
            indication_receive_log(*final(self)) == indication_receive_log(*old(self)).push(
                match message {
                    Some(indication) => ReceiveEvent::Received(indication),
                    None => ReceiveEvent::Empty,
                },
            ),
    {
        self.receiver.try_receive().ok()
    }
}

} // verus!
