//! The two ends of the link between a network stack and the MAC layer.

use core::marker::PhantomData;
use core::task::{Context, Waker};

use vstd::prelude::*;

use crate::channel::{
    IndicationChannel, IndicationReceiver, IndicationSender, ReceiveEvent, RequestChannel,
    RequestReceiver, RequestSender, SendEvent,
};
use crate::mac::{DataIndication, DataRequest, MacIndication, MacRequest};
use crate::slots::Slots;
pub use crate::token::{RxToken, TxToken};

verus! {

/// The largest frame, in bytes, that the driver carries.
pub const MAX_TRANSMISSION_UNIT: usize = 125;

/// The number of frames that the driver carries at a time.
pub const MAX_BURST_SIZE: usize = 1;

/// Whether the link is usable.
#[derive(Debug, Clone, Copy, PartialEq, Eq)]
pub enum LinkState {
    Down,
    Up,
}

/// The address of a network device, by which the medium is told too.
#[derive(Debug, Clone, Copy, PartialEq, Eq)]
pub enum HardwareAddress {
    Ethernet([u8; 6]),
    Ieee802154([u8; 8]),
    Ip,
}

/// Which checksums of a protocol the network stack is to handle.
#[derive(Debug, Clone, Copy, PartialEq, Eq)]
pub enum Checksum {
    /// Verify it when receiving and compute it when sending.
    Both,
    /// Verify it when receiving.
    Rx,
    /// Compute it when sending.
    Tx,
    /// Neither of the two.
    Ignore,
}

/// The checksums that the network stack is to handle, by protocol.
#[derive(Debug, Clone, Copy, PartialEq, Eq)]
pub struct ChecksumCapabilities {
    pub ipv4: Checksum,
    pub udp: Checksum,
    pub tcp: Checksum,
    pub icmpv4: Checksum,
    pub icmpv6: Checksum,
}

/// What the network stack may ask of the driver.
#[derive(Debug, Clone, Copy, PartialEq, Eq)]
pub struct Capabilities {
    pub max_transmission_unit: usize,
    pub max_burst_size: Option<usize>,
    pub checksum: ChecksumCapabilities,
}

/// The MAC layer's end: it takes requests and reports indications.
pub struct EmbassyUpperLayer<'ch> {
    upper_tx: RequestReceiver<'ch>,
    upper_rx: IndicationSender<'ch>,
}

/// The state of an [`EmbassyUpperLayer`].
pub struct UpperLayerState {
    /// The channel that requests come from.
    pub requests: RequestChannel,
    /// The channel that indications go to.
    pub indications: IndicationChannel,
    /// The calls made to take requests.
    pub receive_log: Seq<ReceiveEvent<MacRequest>>,
    /// The calls made to report indications.
    pub send_log: Seq<SendEvent<MacIndication>>,
}

impl UpperLayerState {
    /// The requests that were taken, in order.
    pub open spec fn taken(self) -> Seq<MacRequest> {
        crate::channel::received_messages(self.receive_log)
    }

    /// The indications that were reported, in order.
    pub open spec fn reported(self) -> Seq<MacIndication> {
        crate::channel::sent_messages(self.send_log)
    }
}

impl<'ch> View for EmbassyUpperLayer<'ch> {
    type V = UpperLayerState;

    closed spec fn view(&self) -> UpperLayerState {
        UpperLayerState {
            requests: self.upper_tx.source(),
            indications: self.upper_rx.target(),
            receive_log: self.upper_tx.log(),
            send_log: self.upper_rx.log(),
        }
    }
}

impl<'ch> EmbassyUpperLayer<'ch> {
    pub(crate) fn new(upper_tx: RequestReceiver<'ch>, upper_rx: IndicationSender<'ch>) -> (layer:
        Self)
        ensures
            layer@ == (UpperLayerState {
                requests: upper_tx.source(),
                indications: upper_rx.target(),
                receive_log: upper_tx.log(),
                send_log: upper_rx.log(),
            }),
    {
        EmbassyUpperLayer { upper_tx, upper_rx }
    }

    /// Polls for the next request. Where there is none yet, the task of `cx` is
    /// woken once there is.
    pub fn mac_request(&mut self, cx: &mut Context<'_>) -> (request: Option<MacRequest>)
        ensures
            crate::channel::waker_of(*final(cx)) == crate::channel::waker_of(*old(cx)),
            final(self)@ == (UpperLayerState {
                receive_log: old(self)@.receive_log.push(
                    match request {
                        Some(message) => ReceiveEvent::Received(message),
                        None => ReceiveEvent::Polled {
                            ready: false,
                            waker: crate::channel::waker_of(*old(cx)),
                        },
                    },
                ),
                ..old(self)@
            }),
            final(self)@.taken() == match request {
                Some(message) => old(self)@.taken().push(message),
                None => old(self)@.taken(),
            },
    {
        let request = self.upper_tx.poll_receive(cx);
        assert(self@.receive_log.drop_last() =~= old(self)@.receive_log);
        request
    }

    /// Tries to report an indication. Where the driver has not taken the one
    /// before it yet, gives it back; the task of `cx` is woken once there is
    /// room.
    pub fn received_mac_indication(
        &mut self,
        indication: MacIndication,
        cx: &mut Context<'_>,
    ) -> (outcome: Result<(), MacIndication>)
        ensures
            crate::channel::waker_of(*final(cx)) == crate::channel::waker_of(*old(cx)),
            outcome matches Err(returned) ==> {
                &&& returned == indication
                &&& final(self)@.send_log.len() > old(self)@.send_log.len()
                &&& final(self)@.send_log[old(self)@.send_log.len() as int]
                    == SendEvent::Refused(indication)
            },
            outcome is Ok ==> final(self)@.send_log == old(self)@.send_log.push(
                SendEvent::Sent(indication),
            ),
            final(self)@ == (UpperLayerState { send_log: final(self)@.send_log, ..old(self)@ }),
            crate::channel::sent_or_waits(
                old(self)@.send_log,
                crate::channel::waker_of(*old(cx)),
                indication,
                outcome is Ok,
                final(self)@.send_log,
            ),
            final(self)@.reported() == if outcome is Ok {
                old(self)@.reported().push(indication)
            } else {
                old(self)@.reported()
            },
    {
        let outcome = self.upper_rx.try_send(indication);
        if outcome.is_err() {
            // Nothing else has run since, so the channel is still full.
            self.upper_rx.poll_ready_to_send(cx);
        }
        proof {
            crate::laws::waiting_message_is_not_sent(
                old(self)@.send_log,
                crate::channel::waker_of(*old(cx)),
                indication,
                outcome is Ok,
                self@.send_log,
            );
        }
        outcome
    }
}

/// The network stack's end: a driver that hands out tokens for frames.
pub struct Ieee802154Driver<'ch, RADIO> {
    slots: Slots,
    tx_channel: RequestSender<'ch>,
    rx_channel: IndicationReceiver<'ch>,
    hardware_addr: [u8; 8],
    _radio: PhantomData<RADIO>,
}

/// The state of an [`Ieee802154Driver`].
pub struct DriverState {
    /// The messages that the driver holds.
    pub slots: Slots,
    /// The channel that requests go to.
    pub requests: RequestChannel,
    /// The channel that indications come from.
    pub indications: IndicationChannel,
    /// The calls made to send requests.
    pub send_log: Seq<SendEvent<MacRequest>>,
    /// The calls made to receive indications.
    pub receive_log: Seq<ReceiveEvent<MacIndication>>,
    /// The address of the radio.
    pub hardware_addr: [u8; 8],
}

impl DriverState {
    /// The requests that were sent, in order.
    pub open spec fn sent(self) -> Seq<MacRequest> {
        crate::channel::sent_messages(self.send_log)
    }

    /// The indications that were received, in order.
    pub open spec fn received(self) -> Seq<MacIndication> {
        crate::channel::received_messages(self.receive_log)
    }

    /// The state with other messages held.
    pub open spec fn with_slots(self, slots: Slots) -> DriverState {
        DriverState { slots, ..self }
    }

    /// What a poll does with the request that the driver holds: one that holds
    /// a frame is offered to the channel, and a blank one takes its place once
    /// it is sent; one that the channel does not take stays.
    pub open spec fn polled_transmit(self, waker: Waker, next: DriverState) -> bool {
        if self.slots.tx.is_pending() {
            ||| {
                &&& crate::channel::offered(
                    self.send_log,
                    waker,
                    self.slots.tx,
                    true,
                    next.send_log,
                )
                &&& next.slots.tx.is_blank()
            }
            ||| {
                &&& crate::channel::offered(
                    self.send_log,
                    waker,
                    self.slots.tx,
                    false,
                    next.send_log,
                )
                &&& next.slots.tx == self.slots.tx
            }
        } else {
            &&& next.send_log == self.send_log
            &&& next.slots.tx == self.slots.tx
        }
    }

    /// What a poll does with the indication that the driver holds: an unread
    /// frame stays and nothing is received; otherwise a frame that has been
    /// read is dropped, and what the channel gives takes the slot.
    pub open spec fn polled_receive(self, waker: Waker, next: DriverState) -> bool {
        if self.slots.is_unread() {
            &&& next.receive_log == self.receive_log
            &&& next.slots.rx == self.slots.rx
        } else {
            ||| {
                &&& next.slots.rx is Some
                &&& crate::channel::fetched(
                    self.receive_log,
                    waker,
                    next.slots.rx,
                    next.receive_log,
                )
            }
            ||| {
                &&& next.slots.rx == crate::slots::without_read(self.slots.rx)
                &&& crate::channel::fetched(self.receive_log, waker, None, next.receive_log)
            }
        }
    }

    /// What a poll does, by a task with this waker.
    pub open spec fn polled(self, waker: Waker, next: DriverState) -> bool {
        &&& self.polled_transmit(waker, next)
        &&& self.polled_receive(waker, next)
        &&& next == (DriverState {
            slots: next.slots,
            send_log: next.send_log,
            receive_log: next.receive_log,
            ..self
        })
    }
}

impl<'ch, RADIO> View for Ieee802154Driver<'ch, RADIO> {
    type V = DriverState;

    closed spec fn view(&self) -> DriverState {
        DriverState {
            slots: self.slots,
            requests: self.tx_channel.target(),
            indications: self.rx_channel.source(),
            send_log: self.tx_channel.log(),
            receive_log: self.rx_channel.log(),
            hardware_addr: self.hardware_addr,
        }
    }
}

impl<'ch, RADIO> Ieee802154Driver<'ch, RADIO> {
    pub(crate) fn new(
        tx_channel: RequestSender<'ch>,
        rx_channel: IndicationReceiver<'ch>,
        hardware_addr: [u8; 8],
    ) -> (driver: Self)
        ensures
            driver@.slots.rx is None,
            driver@.slots.tx.is_blank(),
            driver@ == (DriverState {
                slots: driver@.slots,
                requests: tx_channel.target(),
                indications: rx_channel.source(),
                send_log: tx_channel.log(),
                receive_log: rx_channel.log(),
                hardware_addr,
            }),
    {
        Ieee802154Driver {
            slots: Slots::new(),
            tx_channel,
            rx_channel,
            hardware_addr,
            _radio: PhantomData,
        }
    }

    /// Tries to send a request past the frames that go through tokens. Where
    /// the channel is full, gives it back; the task of `cx` is woken once there
    /// is room.
    pub fn submit_mac_request(&mut self, request: MacRequest, cx: &mut Context<'_>) -> (outcome:
        Result<(), MacRequest>)
        ensures
            crate::channel::waker_of(*final(cx)) == crate::channel::waker_of(*old(cx)),
            outcome matches Err(returned) ==> {
                &&& returned == request
                &&& final(self)@.send_log.len() > old(self)@.send_log.len()
                &&& final(self)@.send_log[old(self)@.send_log.len() as int]
                    == SendEvent::Refused(request)
            },
            outcome is Ok ==> final(self)@.send_log == old(self)@.send_log.push(
                SendEvent::Sent(request),
            ),
            final(self)@ == (DriverState { send_log: final(self)@.send_log, ..old(self)@ }),
            crate::channel::sent_or_waits(
                old(self)@.send_log,
                crate::channel::waker_of(*old(cx)),
                request,
                outcome is Ok,
                final(self)@.send_log,
            ),
            final(self)@.sent() == if outcome is Ok {
                old(self)@.sent().push(request)
            } else {
                old(self)@.sent()
            },
    {
        let outcome = self.tx_channel.try_send(request);
        if outcome.is_err() {
            // Nothing else has run since, so the channel is still full.
            self.tx_channel.poll_ready_to_send(cx);
        }
        proof {
            crate::laws::waiting_message_is_not_sent(
                old(self)@.send_log,
                crate::channel::waker_of(*old(cx)),
                request,
                outcome is Ok,
                self@.send_log,
            );
        }
        outcome
    }

    /// Moves what can move: offers the request that waits to the channel, and
    /// takes an indication where there is room for one.
    pub fn poll(&mut self, cx: &mut Context<'_>)
        ensures
            crate::channel::waker_of(*final(cx)) == crate::channel::waker_of(*old(cx)),
            old(self)@.polled(crate::channel::waker_of(*old(cx)), final(self)@),
    {
        self.poll_transmit(cx);
        self.poll_receive(cx);
    }

    fn poll_receive(&mut self, cx: &mut Context<'_>)
        ensures
            crate::channel::waker_of(*final(cx)) == crate::channel::waker_of(*old(cx)),
            old(self)@.polled_receive(crate::channel::waker_of(*old(cx)), final(self)@),
            final(self)@.slots.tx == old(self)@.slots.tx,
            final(self)@ == (DriverState {
                slots: final(self)@.slots,
                receive_log: final(self)@.receive_log,
                ..old(self)@
            }),
    {
        if !self.slots.make_room() {
            return;
        }
        if !self.rx_channel.poll_ready_to_receive(cx) {
            return;
        }
        let outcome = self.rx_channel.try_receive();
        self.slots.finish_receive(outcome);
    }

    fn poll_transmit(&mut self, cx: &mut Context<'_>)
        ensures
            crate::channel::waker_of(*final(cx)) == crate::channel::waker_of(*old(cx)),
            old(self)@.polled_transmit(crate::channel::waker_of(*old(cx)), final(self)@),
            final(self)@.slots.rx == old(self)@.slots.rx,
            final(self)@ == (DriverState {
                slots: final(self)@.slots,
                send_log: final(self)@.send_log,
                ..old(self)@
            }),
    {
        if !self.slots.wants_transmit() {
            return;
        }
        if !self.tx_channel.poll_ready_to_send(cx) {
            return;
        }
        let request = self.slots.take_request();
        let outcome = self.tx_channel.try_send(request);
        self.slots.finish_transmit(outcome);
    }

    /// Polls, and hands out a token for the frame that came in together with
    /// one for an answer, if there is an unread frame and room for an answer.
    pub fn receive(&mut self, cx: &mut Context<'_>) -> (tokens: Option<
        (RxToken<'_>, TxToken<'_>),
    >)
        ensures
            crate::channel::waker_of(*final(cx)) == crate::channel::waker_of(*old(cx)),
            match tokens {
                Some((rx, tx)) => {
                    let polled = final(self)@.slots.with_frames(*rx.frame(), *tx.frame());
                    &&& old(self)@.polled(
                        crate::channel::waker_of(*old(cx)),
                        final(self)@.with_slots(polled),
                    )
                    &&& polled.can_receive()
                    &&& rx.frame().dirty
                    &&& !tx.frame().dirty
                    &&& final(self)@.slots.rx == Some(
                        MacIndication::McpsData(DataIndication { buffer: *final(rx.frame()) }),
                    )
                    &&& final(self)@.slots.tx == MacRequest::McpsDataRequest(
                        DataRequest { buffer: *final(tx.frame()) },
                    )
                    &&& final(self)@.slots == polled.with_frames(
                        *final(rx.frame()),
                        *final(tx.frame()),
                    )
                },
                None => {
                    &&& old(self)@.polled(crate::channel::waker_of(*old(cx)), final(self)@)
                    &&& !final(self)@.slots.can_receive()
                    &&& match (final(self)@.slots.rx, final(self)@.slots.tx) {
                        (
                            Some(MacIndication::McpsData(indication)),
                            MacRequest::McpsDataRequest(request),
                        ) => !indication.buffer.dirty || request.buffer.dirty,
                        _ => true,
                    }
                },
            },
    {
        self.poll(cx);
        self.slots.receive_tokens()
    }

    /// Polls, and hands out a token for a frame to send, if there is room for
    /// one.
    pub fn transmit(&mut self, cx: &mut Context<'_>) -> (token: Option<TxToken<'_>>)
        ensures
            crate::channel::waker_of(*final(cx)) == crate::channel::waker_of(*old(cx)),
            match token {
                Some(tx) => {
                    let polled = final(self)@.slots.with_tx_frame(*tx.frame());
                    &&& old(self)@.polled(
                        crate::channel::waker_of(*old(cx)),
                        final(self)@.with_slots(polled),
                    )
                    &&& polled.tx.is_free()
                    &&& !tx.frame().dirty
                    &&& final(self)@.slots.tx == MacRequest::McpsDataRequest(
                        DataRequest { buffer: *final(tx.frame()) },
                    )
                    &&& final(self)@.slots == polled.with_tx_frame(*final(tx.frame()))
                },
                None => {
                    &&& old(self)@.polled(crate::channel::waker_of(*old(cx)), final(self)@)
                    &&& !final(self)@.slots.tx.is_free()
                    &&& !(final(self)@.slots.tx matches MacRequest::McpsDataRequest(request)
                        && !request.buffer.dirty)
                },
            },
    {
        self.poll(cx);
        self.slots.transmit_token()
    }

    /// Polls; the link is always up.
    pub fn link_state(&mut self, cx: &mut Context<'_>) -> (state: LinkState)
        ensures
            crate::channel::waker_of(*final(cx)) == crate::channel::waker_of(*old(cx)),
            state == LinkState::Up,
            old(self)@.polled(crate::channel::waker_of(*old(cx)), final(self)@),
    {
        self.poll(cx);
        LinkState::Up
    }

    /// The driver carries one frame at a time and leaves all checksums to the
    /// network stack.
    pub fn capabilities(&self) -> (caps: Capabilities)
        ensures
            caps.max_transmission_unit == 125,
            caps.max_burst_size == Some(1usize),
            caps.checksum == (ChecksumCapabilities {
                ipv4: Checksum::Both,
                udp: Checksum::Both,
                tcp: Checksum::Both,
                icmpv4: Checksum::Both,
                icmpv6: Checksum::Both,
            }),
    {
        Capabilities {
            max_transmission_unit: MAX_TRANSMISSION_UNIT,
            max_burst_size: Some(MAX_BURST_SIZE),
            checksum: ChecksumCapabilities {
                ipv4: Checksum::Both,
                udp: Checksum::Both,
                tcp: Checksum::Both,
                icmpv4: Checksum::Both,
                icmpv6: Checksum::Both,
            },
        }
    }

    /// The address of the radio.
    pub fn hardware_address(&self) -> (address: HardwareAddress)
        ensures
            address == HardwareAddress::Ieee802154(self@.hardware_addr),
    {
        HardwareAddress::Ieee802154(self.hardware_addr)
    }
}

} // verus!
