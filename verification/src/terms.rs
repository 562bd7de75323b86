//! What the words in the contracts come to, field by field and event by event.

use core::task::Waker;

use vstd::prelude::*;

use crate::channel::{
    IndicationReceiver, IndicationSender, Links, ReceiveEvent, RequestReceiver, RequestSender,
    SendEvent,
};
use crate::driver::{DriverState, UpperLayerState};
use crate::mac::{
    DataIndication, DataRequest, FrameBuffer, MacIndication, MacRequest, MlmePrimitive,
};
use crate::slots::Slots;
use crate::stack::StackState;

verus! {

/// A blank frame is not dirty, and every byte of it is zero.
pub proof fn blank_frame(frame: FrameBuffer)
    ensures
        frame.is_blank() <==> {
            &&& !frame.dirty
            &&& forall|i: int| 0 <= i < 128 ==> #[trigger] frame.buffer@[i] == 0
        },
{
    if !frame.dirty && (forall|i: int| 0 <= i < 128 ==> #[trigger] frame.buffer@[i] == 0) {
        assert(frame.buffer@ =~= Seq::new(128nat, |i: int| 0u8));
    }
}

/// Whether a data indication is unread or read is told by its dirty flag alone,
/// whatever the bytes are.
pub proof fn data_indication(frame: FrameBuffer)
    ensures
        MacIndication::McpsData(DataIndication { buffer: frame }).is_unread() <==> frame.dirty,
        MacIndication::McpsData(DataIndication { buffer: frame }).is_read() <==> !frame.dirty,
{
}

/// Whether a data request is pending or free is told by its dirty flag alone,
/// whatever the bytes are.
pub proof fn data_request(frame: FrameBuffer)
    ensures
        MacRequest::McpsDataRequest(DataRequest { buffer: frame }).is_pending() <==> frame.dirty,
        MacRequest::McpsDataRequest(DataRequest { buffer: frame }).is_free() <==> !frame.dirty,
        MacRequest::McpsDataRequest(DataRequest { buffer: frame }).is_blank()
            <==> frame.is_blank(),
{
}

/// A management primitive carries no frame: it is neither read nor unread,
/// neither pending nor free.
pub proof fn management(primitive: MlmePrimitive)
    ensures
        !MacIndication::MlmeIndication(primitive).is_unread(),
        !MacIndication::MlmeIndication(primitive).is_read(),
        !MacRequest::MlmeRequest(primitive).is_pending(),
        !MacRequest::MlmeRequest(primitive).is_free(),
        !MacRequest::MlmeRequest(primitive).is_blank(),
{
}

/// A frame can be read exactly where the incoming slot holds a dirty frame and
/// the outgoing slot a clean one, whatever the bytes of either are.
pub proof fn readable_slots(rx: FrameBuffer, tx: FrameBuffer)
    ensures
        ({
            let slots = Slots {
                rx: Some(MacIndication::McpsData(DataIndication { buffer: rx })),
                tx: MacRequest::McpsDataRequest(DataRequest { buffer: tx }),
            };
            &&& slots.wf()
            &&& slots.is_unread() <==> rx.dirty
            &&& slots.can_receive() <==> rx.dirty && !tx.dirty
        }),
{
}

/// Without a data indication in the incoming slot, or without a data request in
/// the outgoing one, no frame can be read.
pub proof fn unreadable_slots(slots: Slots, primitive: MlmePrimitive)
    ensures
        slots.rx is None ==> !slots.is_unread() && !slots.can_receive(),
        slots.rx == Some(MacIndication::MlmeIndication(primitive)) ==> !slots.is_unread()
            && !slots.can_receive(),
        slots.tx == MacRequest::MlmeRequest(primitive) ==> !slots.wf() && !slots.can_receive(),
{
}

/// To put a frame into a slot changes that slot alone, and the slot then holds
/// that frame.
pub proof fn slots_with_frames(slots: Slots, rx: FrameBuffer, tx: FrameBuffer)
    ensures
        slots.with_tx_frame(tx).rx == slots.rx,
        slots.with_tx_frame(tx).tx == MacRequest::McpsDataRequest(DataRequest { buffer: tx }),
        slots.with_rx_frame(rx).rx == Some(
            MacIndication::McpsData(DataIndication { buffer: rx }),
        ),
        slots.with_rx_frame(rx).tx == slots.tx,
        slots.with_frames(rx, tx).rx == Some(
            MacIndication::McpsData(DataIndication { buffer: rx }),
        ),
        slots.with_frames(rx, tx).tx == MacRequest::McpsDataRequest(DataRequest { buffer: tx }),
{
}

/// What is dropped from the incoming slot is a clean frame and nothing else.
pub proof fn dropped_indication(rx: Option<MacIndication>)
    ensures
        crate::slots::without_read(rx) == match rx {
            Some(MacIndication::McpsData(indication)) => if indication.buffer.dirty {
                rx
            } else {
                None
            },
            _ => rx,
        },
{
}

/// A message that was offered has been given to the channel, or the channel was
/// asked and said that it has no room. Nothing else was done.
pub proof fn offered_message<T>(
    before: Seq<SendEvent<T>>,
    waker: Waker,
    message: T,
    taken: bool,
    after: Seq<SendEvent<T>>,
)
    requires
        crate::channel::offered(before, waker, message, taken, after),
    ensures
        before.is_prefix_of(after),
        ({
            let asked = after[before.len() as int];
            let given = after[before.len() as int + 1];
            ||| {
                &&& !taken
                &&& after.len() == before.len() + 1
                &&& asked == SendEvent::<T>::Polled { ready: false, waker }
            }
            ||| {
                &&& after.len() == before.len() + 2
                &&& asked == SendEvent::<T>::Polled { ready: true, waker }
                &&& given == if taken {
                    SendEvent::Sent(message)
                } else {
                    SendEvent::Refused(message)
                }
            }
        }),
{
}

/// A message that is sent or waits has been given to the channel first of all.
/// It waits only where the channel refused that very message, and then the
/// waker was left. Nothing else was done.
pub proof fn waiting_message<T>(
    before: Seq<SendEvent<T>>,
    waker: Waker,
    message: T,
    taken: bool,
    after: Seq<SendEvent<T>>,
)
    requires
        crate::channel::sent_or_waits(before, waker, message, taken, after),
    ensures
        before.is_prefix_of(after),
        taken ==> {
            &&& after.len() == before.len() + 1
            &&& after[before.len() as int] == SendEvent::Sent(message)
        },
        !taken ==> {
            &&& after.len() == before.len() + 2
            &&& after[before.len() as int] == SendEvent::Refused(message)
            &&& after[before.len() as int + 1] matches SendEvent::Polled { waker: left, .. } && left
                == waker
        },
{
}

/// A message that was fetched came from the channel. None came only where the
/// channel was asked and had none. Nothing else was done.
pub proof fn fetched_message<T>(
    before: Seq<ReceiveEvent<T>>,
    waker: Waker,
    message: Option<T>,
    after: Seq<ReceiveEvent<T>>,
)
    requires
        crate::channel::fetched(before, waker, message, after),
    ensures
        before.is_prefix_of(after),
        ({
            let asked = after[before.len() as int];
            let got = after[before.len() as int + 1];
            ||| {
                &&& message is None
                &&& after.len() == before.len() + 1
                &&& asked == ReceiveEvent::<T>::Polled { ready: false, waker }
            }
            ||| {
                &&& after.len() == before.len() + 2
                &&& asked == ReceiveEvent::<T>::Polled { ready: true, waker }
                &&& got == match message {
                    Some(received) => ReceiveEvent::Received(received),
                    None => ReceiveEvent::Empty,
                }
            }
        }),
{
}

/// The messages that a channel took are those of the events that say so, in the
/// order of the log.
pub proof fn sent_messages_of_log<T>(log: Seq<SendEvent<T>>, message: T, ready: bool, waker: Waker)
    ensures
        crate::channel::sent_messages(Seq::<SendEvent<T>>::empty()) == Seq::<T>::empty(),
        crate::channel::sent_messages(log.push(SendEvent::Sent(message)))
            == crate::channel::sent_messages(log).push(message),
        crate::channel::sent_messages(log.push(SendEvent::Refused(message)))
            == crate::channel::sent_messages(log),
        crate::channel::sent_messages(log.push(SendEvent::Polled { ready, waker }))
            == crate::channel::sent_messages(log),
{
    assert(log.push(SendEvent::Sent(message)).drop_last() =~= log);
    assert(log.push(SendEvent::Refused(message)).drop_last() =~= log);
    assert(log.push(SendEvent::Polled { ready, waker }).drop_last() =~= log);
}

/// The messages that a channel gave out are those of the events that say so, in
/// the order of the log.
pub proof fn received_messages_of_log<T>(
    log: Seq<ReceiveEvent<T>>,
    message: T,
    ready: bool,
    waker: Waker,
)
    ensures
        crate::channel::received_messages(Seq::<ReceiveEvent<T>>::empty()) == Seq::<T>::empty(),
        crate::channel::received_messages(log.push(ReceiveEvent::Received(message)))
            == crate::channel::received_messages(log).push(message),
        crate::channel::received_messages(log.push(ReceiveEvent::Empty))
            == crate::channel::received_messages(log),
        crate::channel::received_messages(log.push(ReceiveEvent::Polled { ready, waker }))
            == crate::channel::received_messages(log),
{
    assert(log.push(ReceiveEvent::Received(message)).drop_last() =~= log);
    assert(log.push(ReceiveEvent::Empty).drop_last() =~= log);
    assert(log.push(ReceiveEvent::Polled { ready, waker }).drop_last() =~= log);
}

/// A handle is known by the channel that it is on and by all the calls made
/// through it.
pub proof fn handles(
    request_sender: RequestSender<'_>,
    request_receiver: RequestReceiver<'_>,
    indication_sender: IndicationSender<'_>,
    indication_receiver: IndicationReceiver<'_>,
)
    ensures
        request_sender.target() == crate::channel::request_target(request_sender),
        request_sender.log() == crate::channel::request_send_log(request_sender),
        request_receiver.source() == crate::channel::request_source(request_receiver),
        request_receiver.log() == crate::channel::request_receive_log(request_receiver),
        indication_sender.target() == crate::channel::indication_target(indication_sender),
        indication_sender.log() == crate::channel::indication_send_log(indication_sender),
        indication_receiver.source() == crate::channel::indication_source(indication_receiver),
        indication_receiver.log() == crate::channel::indication_receive_log(indication_receiver),
{
}

/// Links that start empty are two channels that each held no message at first.
pub proof fn empty_links(links: Links)
    ensures
        links.starts_empty() <==> {
            &&& crate::channel::initial_requests(links.requests).len() == 0
            &&& crate::channel::initial_indications(links.indications).len() == 0
        },
{
    if crate::channel::initial_requests(links.requests).len() == 0 {
        assert(crate::channel::initial_requests(links.requests) =~= Seq::<MacRequest>::empty());
    }
    if crate::channel::initial_indications(links.indications).len() == 0 {
        assert(crate::channel::initial_indications(links.indications)
            =~= Seq::<MacIndication>::empty());
    }
}

/// What an end has sent and received is what its logs tell, and other slots
/// change the slots alone.
pub proof fn states(driver: DriverState, slots: Slots, upper: UpperLayerState)
    ensures
        driver.sent() == crate::channel::sent_messages(driver.send_log),
        driver.received() == crate::channel::received_messages(driver.receive_log),
        driver.with_slots(slots) == (DriverState { slots, ..driver }),
        upper.taken() == crate::channel::received_messages(upper.receive_log),
        upper.reported() == crate::channel::sent_messages(upper.send_log),
{
}

/// A stack is running exactly where its radio is gone, whatever its address is.
pub proof fn running_stack<RADIO>(stack: StackState<RADIO>)
    ensures
        stack.is_running() <==> stack.radio is None,
{
}

/// A stack as it is made holds its radio and is not running. To start it takes
/// the radio and changes nothing else.
pub proof fn new_stack<RADIO>(links: Links, radio: RADIO, hardware_addr: [u8; 8])
    ensures
        ({
            let stack = StackState { links, radio: Some(radio), hardware_addr };
            &&& !stack.is_running()
            &&& stack.started().is_running()
            &&& stack.started() == (StackState::<RADIO> { links, radio: None, hardware_addr })
        }),
{
}

/// A driver as a stack makes it has the address of the stack and stands on its
/// channels. It has made no call yet, holds no indication, and has a clean frame
/// of zeros ready to be written.
pub proof fn new_driver<RADIO>(stack: StackState<RADIO>, driver: DriverState)
    requires
        stack.is_fresh_driver(driver),
    ensures
        driver.hardware_addr == stack.hardware_addr,
        driver.requests == stack.links.requests,
        driver.indications == stack.links.indications,
        driver.send_log.len() == 0,
        driver.receive_log.len() == 0,
        driver.slots.rx is None,
        driver.slots.tx matches MacRequest::McpsDataRequest(request) && {
            &&& !request.buffer.dirty
            &&& forall|i: int| 0 <= i < 128 ==> #[trigger] request.buffer.buffer@[i] == 0
        },
{
}

/// The far ends as a stack gives them out stand on its channels. No call has
/// been made through them yet.
pub proof fn new_upper_layer<RADIO>(stack: StackState<RADIO>)
    ensures
        stack.fresh_upper_layer().requests == stack.links.requests,
        stack.fresh_upper_layer().indications == stack.links.indications,
        stack.fresh_upper_layer().receive_log.len() == 0,
        stack.fresh_upper_layer().send_log.len() == 0,
{
}

/// The driver carries frames of up to 125 bytes, one at a time. With the two
/// bytes of the checksum that is the largest frame of the MAC layer, and a
/// buffer has one byte more.
pub proof fn sizes()
    ensures
        crate::driver::MAX_TRANSMISSION_UNIT == 125,
        crate::driver::MAX_BURST_SIZE == 1,
        crate::driver::MAX_TRANSMISSION_UNIT + 2 == 127,
        crate::mac::FRAME_BUFFER_LEN == 127 + 1,
{
}

} // verus!
