//! What holds of the link as a whole.

use core::task::Waker;

use vstd::prelude::*;

use crate::channel::{ReceiveEvent, SendEvent};
use crate::driver::{DriverState, UpperLayerState};
use crate::mac::{DataIndication, DataRequest, FrameBuffer, MacIndication, MacRequest};
use crate::stack::StackState;

verus! {

/// The requests that left the driver, followed by the one that it still has to
/// send.
pub open spec fn outbound(driver: DriverState) -> Seq<MacRequest> {
    if driver.slots.tx.is_pending() {
        driver.sent().push(driver.slots.tx)
    } else {
        driver.sent()
    }
}

/// A frame that the driver holds unread is the last indication that it
/// received.
pub open spec fn unread_is_latest(driver: DriverState) -> bool {
    driver.slots.is_unread() ==> {
        &&& driver.received().len() > 0
        &&& driver.slots.rx == Some(driver.received().last())
    }
}

/// Each state comes from the one before it by a poll of a task with the waker
/// between them.
pub open spec fn polls(states: Seq<DriverState>, wakers: Seq<Waker>) -> bool {
    &&& states.len() == wakers.len() + 1
    &&& forall|i: int|
        0 <= i < wakers.len() ==> states[i].polled(#[trigger] wakers[i], states[i + 1])
}

/// Something that happens to a driver.
pub enum Step {
    /// A task with this waker polls it.
    Poll { waker: Waker },
    /// A token is used to write a frame; this is what the buffer then holds.
    Write { frame: FrameBuffer },
    /// A token is used to read a frame; this is what the buffer then holds.
    Read { rest: FrameBuffer },
    /// A task with this waker submits a request, which the channel takes or
    /// not.
    Submit { waker: Waker, request: MacRequest, taken: bool },
}

/// A step takes a driver from one state to another.
pub open spec fn stepped(before: DriverState, step: Step, after: DriverState) -> bool {
    match step {
        Step::Poll { waker } => before.polled(waker, after),
        Step::Write { frame } => {
            &&& before.slots.tx.is_free()
            &&& frame.dirty
            &&& after == before.with_slots(before.slots.with_tx_frame(frame))
        },
        Step::Read { rest } => {
            &&& before.slots.is_unread()
            &&& !rest.dirty
            &&& after == before.with_slots(before.slots.with_rx_frame(rest))
        },
        Step::Submit { waker, request, taken } => {
            &&& crate::channel::sent_or_waits(
                before.send_log,
                waker,
                request,
                taken,
                after.send_log,
            )
            &&& after == (DriverState { send_log: after.send_log, ..before })
        },
    }
}

/// Each state comes from the one before it by the step between them.
pub open spec fn runs(states: Seq<DriverState>, steps: Seq<Step>) -> bool {
    &&& states.len() == steps.len() + 1
    &&& forall|i: int|
        0 <= i < steps.len() ==> stepped(states[i], #[trigger] steps[i], states[i + 1])
}

/// The requests that the steps of a run hand to the driver, behind those handed
/// to it before: a frame that is written comes last, and a request that is
/// submitted, where the channel takes it, comes last but for a frame that the
/// driver holds.
pub open spec fn handed_in(states: Seq<DriverState>, steps: Seq<Step>) -> Seq<MacRequest>
    decreases steps.len(),
{
    if steps.len() == 0 {
        outbound(states.first())
    } else {
        let earlier = handed_in(states.drop_last(), steps.drop_last());
        let held = states[steps.len() - 1].slots.tx.is_pending();
        match steps.last() {
            Step::Write { frame } => earlier.push(
                MacRequest::McpsDataRequest(DataRequest { buffer: frame }),
            ),
            Step::Submit { request, taken: true, .. } => if held {
                earlier.drop_last().push(request).push(earlier.last())
            } else {
                earlier.push(request)
            },
            _ => earlier,
        }
    }
}

/// The frames that are written in a run, as requests, in order.
pub open spec fn written(steps: Seq<Step>) -> Seq<MacRequest>
    decreases steps.len(),
{
    if steps.len() == 0 {
        Seq::empty()
    } else {
        let earlier = written(steps.drop_last());
        match steps.last() {
            Step::Write { frame } => earlier.push(
                MacRequest::McpsDataRequest(DataRequest { buffer: frame }),
            ),
            _ => earlier,
        }
    }
}

/// The indications whose frames are read in a run, as they are handed out for
/// it, in order.
pub open spec fn handed_out(states: Seq<DriverState>, steps: Seq<Step>) -> Seq<MacIndication>
    decreases steps.len(),
{
    if steps.len() == 0 {
        Seq::empty()
    } else {
        let earlier = handed_out(states.drop_last(), steps.drop_last());
        match steps.last() {
            Step::Read { .. } => earlier.push(states[steps.len() - 1].slots.rx->0),
            _ => earlier,
        }
    }
}

/// The indications that hold a frame to be read, in order.
pub open spec fn with_frame(indications: Seq<MacIndication>) -> Seq<MacIndication>
    decreases indications.len(),
{
    if indications.len() == 0 {
        Seq::empty()
    } else {
        let earlier = with_frame(indications.drop_last());
        if indications.last().is_unread() {
            earlier.push(indications.last())
        } else {
            earlier
        }
    }
}

/// The indications with a frame that the driver received, but for the one that
/// it still holds unread.
pub open spec fn no_longer_held(driver: DriverState) -> Seq<MacIndication> {
    if driver.slots.is_unread() {
        with_frame(driver.received()).drop_last()
    } else {
        with_frame(driver.received())
    }
}

/// A message that is offered to a channel is sent once where the channel takes
/// it and not at all where it does not. Either way the waker of the offering
/// task has been left with the channel.
pub proof fn offered_message_is_sent_once<T>(
    before: Seq<SendEvent<T>>,
    waker: Waker,
    message: T,
    taken: bool,
    after: Seq<SendEvent<T>>,
)
    requires
        crate::channel::offered(before, waker, message, taken, after),
    ensures
        crate::channel::sent_messages(after) == if taken {
            crate::channel::sent_messages(before).push(message)
        } else {
            crate::channel::sent_messages(before)
        },
        crate::channel::left_with_sender(before, waker, after),
{
    let polled = before.push(after[before.len() as int]);
    assert(polled.drop_last() =~= before);
    assert(crate::channel::sent_messages(polled) == crate::channel::sent_messages(before));
    if after.len() == before.len() + 2 {
        assert(after.drop_last() =~= polled);
    } else {
        assert(after =~= polled);
    }
}

/// A message that is sent or waits is sent once where the channel takes it, and
/// then no waker is left with the channel. Where it waits, the channel has
/// refused that very message, it is not sent, and the waker of the sending task
/// has been left.
pub proof fn waiting_message_is_not_sent<T>(
    before: Seq<SendEvent<T>>,
    waker: Waker,
    message: T,
    taken: bool,
    after: Seq<SendEvent<T>>,
)
    requires
        crate::channel::sent_or_waits(before, waker, message, taken, after),
    ensures
        taken ==> {
            &&& crate::channel::sent_messages(after) == crate::channel::sent_messages(before).push(
                message,
            )
            &&& after == before.push(SendEvent::Sent(message))
        },
        !taken ==> {
            &&& crate::channel::sent_messages(after) == crate::channel::sent_messages(before)
            &&& after.len() == before.len() + 2
            &&& after[before.len() as int] == SendEvent::Refused(message)
            &&& after.last() matches SendEvent::Polled { waker: left, .. } && left == waker
        },
{
    if taken {
        assert(after.drop_last() =~= before);
    } else {
        let refused = before.push(SendEvent::Refused(message));
        assert(refused.drop_last() =~= before);
        assert(crate::channel::sent_messages(refused) == crate::channel::sent_messages(before));
        assert(after.drop_last() =~= refused);
    }
}

/// A message that is fetched from a channel is received once. Whether one came
/// or not, the waker of the fetching task has been left with the channel.
pub proof fn fetched_message_is_received_once<T>(
    before: Seq<ReceiveEvent<T>>,
    waker: Waker,
    message: Option<T>,
    after: Seq<ReceiveEvent<T>>,
)
    requires
        crate::channel::fetched(before, waker, message, after),
    ensures
        crate::channel::received_messages(after) == match message {
            Some(received) => crate::channel::received_messages(before).push(received),
            None => crate::channel::received_messages(before),
        },
        crate::channel::left_with_receiver(before, waker, after),
{
    let polled = before.push(after[before.len() as int]);
    assert(polled.drop_last() =~= before);
    assert(crate::channel::received_messages(polled) == crate::channel::received_messages(before));
    if after.len() == before.len() + 2 {
        assert(after.drop_last() =~= polled);
    } else {
        assert(after =~= polled);
    }
}

/// What a poll adds to what was received: nothing, or the one indication that
/// the driver then holds.
proof fn lemma_polled_receive(before: DriverState, waker: Waker, after: DriverState)
    requires
        before.polled(waker, after),
        !before.slots.is_unread(),
    ensures
        crate::channel::left_with_receiver(before.receive_log, waker, after.receive_log),
        ({
            ||| {
                &&& after.slots.rx is Some
                &&& after.received() == before.received().push(after.slots.rx->0)
            }
            ||| {
                &&& after.slots.rx == crate::slots::without_read(before.slots.rx)
                &&& after.received() == before.received()
            }
        }),
{
    if after.slots.rx is Some && crate::channel::fetched(
        before.receive_log,
        waker,
        after.slots.rx,
        after.receive_log,
    ) {
        fetched_message_is_received_once(
            before.receive_log,
            waker,
            after.slots.rx,
            after.receive_log,
        );
    } else {
        fetched_message_is_received_once(before.receive_log, waker, None, after.receive_log);
    }
}

/// A poll keeps a dirty frame that came in, whatever its bytes are, and takes
/// nothing from the channel. With any clean frame to answer in, it can be read.
pub proof fn dirty_frame_is_kept_for_reading(
    before: DriverState,
    waker: Waker,
    after: DriverState,
    frame: FrameBuffer,
    answer: FrameBuffer,
)
    requires
        before.polled(waker, after),
        before.slots.rx == Some(MacIndication::McpsData(DataIndication { buffer: frame })),
        frame.dirty,
    ensures
        after.slots.rx == Some(MacIndication::McpsData(DataIndication { buffer: frame })),
        after.receive_log == before.receive_log,
        !answer.dirty && after.slots.tx == MacRequest::McpsDataRequest(
            DataRequest { buffer: answer },
        ) ==> after.slots.can_receive(),
{
}

/// A poll of a driver that holds no dirty frame asks the channel for an
/// indication, whatever else it holds. What comes takes the slot. Where nothing
/// comes, a clean frame is dropped and a management primitive stays.
pub proof fn indication_is_asked_for(before: DriverState, waker: Waker, after: DriverState)
    requires
        before.polled(waker, after),
        before.slots.rx matches Some(MacIndication::McpsData(indication))
            ==> !indication.buffer.dirty,
    ensures
        before.receive_log.is_prefix_of(after.receive_log),
        before.receive_log.len() < after.receive_log.len() <= before.receive_log.len() + 2,
        after.receive_log[before.receive_log.len() as int] matches ReceiveEvent::Polled {
            waker: left,
            ..
        } && left == waker,
        match after.receive_log.last() {
            ReceiveEvent::Received(indication) => after.slots.rx == Some(indication),
            ReceiveEvent::Polled { ready: true, .. } => false,
            _ => after.slots.rx == match before.slots.rx {
                Some(MacIndication::MlmeIndication(_)) => before.slots.rx,
                _ => None,
            },
        },
{
    if after.slots.rx is Some && crate::channel::fetched(
        before.receive_log,
        waker,
        after.slots.rx,
        after.receive_log,
    ) {
        crate::terms::fetched_message(
            before.receive_log,
            waker,
            after.slots.rx,
            after.receive_log,
        );
    } else {
        crate::terms::fetched_message(before.receive_log, waker, None, after.receive_log);
    }
}

/// A poll offers a dirty frame that is to go out to the channel, whatever its
/// bytes are. Once it is sent, a clean frame of zeros takes its place. It stays
/// as it is only where the channel had no room for it.
pub proof fn dirty_frame_is_offered(
    before: DriverState,
    waker: Waker,
    after: DriverState,
    frame: FrameBuffer,
)
    requires
        before.polled(waker, after),
        before.slots.tx == MacRequest::McpsDataRequest(DataRequest { buffer: frame }),
        frame.dirty,
    ensures
        before.send_log.is_prefix_of(after.send_log),
        before.send_log.len() < after.send_log.len() <= before.send_log.len() + 2,
        after.send_log[before.send_log.len() as int] matches SendEvent::Polled {
            waker: left,
            ..
        } && left == waker,
        match after.send_log.last() {
            SendEvent::Sent(request) => {
                &&& request == before.slots.tx
                &&& after.slots.tx matches MacRequest::McpsDataRequest(blank) && {
                    &&& !blank.buffer.dirty
                    &&& forall|i: int| 0 <= i < 128 ==> #[trigger] blank.buffer.buffer@[i] == 0
                }
            },
            SendEvent::Refused(request) => {
                &&& request == before.slots.tx
                &&& after.slots.tx == before.slots.tx
            },
            SendEvent::Polled { ready, waker: left } => {
                &&& !ready
                &&& left == waker
                &&& after.slots.tx == before.slots.tx
            },
        },
{
    if crate::channel::offered(before.send_log, waker, before.slots.tx, true, after.send_log) {
        crate::terms::offered_message(
            before.send_log,
            waker,
            before.slots.tx,
            true,
            after.send_log,
        );
    } else {
        crate::terms::offered_message(
            before.send_log,
            waker,
            before.slots.tx,
            false,
            after.send_log,
        );
    }
}

/// A poll leaves a request without a dirty frame as it is, and sends nothing.
pub proof fn clean_request_is_left_alone(before: DriverState, waker: Waker, after: DriverState)
    requires
        before.polled(waker, after),
        before.slots.tx matches MacRequest::McpsDataRequest(request) ==> !request.buffer.dirty,
    ensures
        after.slots.tx == before.slots.tx,
        after.send_log == before.send_log,
{
}

/// A poll changes neither the channels of a driver nor its address.
pub proof fn poll_keeps_channels_and_address(
    before: DriverState,
    waker: Waker,
    after: DriverState,
)
    requires
        before.polled(waker, after),
    ensures
        after.requests == before.requests,
        after.indications == before.indications,
        after.hardware_addr == before.hardware_addr,
{
}

/// Every data indication with a dirty frame counts as one with a frame to be
/// read, whatever its bytes are. No other indication does.
pub proof fn dirty_frames_are_those_to_read(
    indications: Seq<MacIndication>,
    next: MacIndication,
)
    ensures
        with_frame(Seq::<MacIndication>::empty()) == Seq::<MacIndication>::empty(),
        with_frame(indications.push(next)) == match next {
            MacIndication::McpsData(indication) => if indication.buffer.dirty {
                with_frame(indications).push(next)
            } else {
                with_frame(indications)
            },
            MacIndication::MlmeIndication(_) => with_frame(indications),
        },
{
    assert(indications.push(next).drop_last() =~= indications);
}

/// A poll loses no request, sends none twice, changes none and reorders none:
/// what left the driver and what it still has to send are the same in all.
pub proof fn requests_are_conserved(before: DriverState, waker: Waker, after: DriverState)
    requires
        before.polled(waker, after),
    ensures
        outbound(after) == outbound(before),
{
    if before.slots.tx.is_pending() {
        let request = before.slots.tx;
        let taken = after.slots.tx.is_blank();
        offered_message_is_sent_once(before.send_log, waker, request, taken, after.send_log);
    }
}

/// However often the driver is polled, the requests that left it and the one
/// that it still has to send are the same in all.
pub proof fn requests_are_conserved_over_polls(states: Seq<DriverState>, wakers: Seq<Waker>)
    requires
        polls(states, wakers),
    ensures
        outbound(states.last()) == outbound(states.first()),
    decreases states.len(),
{
    if wakers.len() > 0 {
        let last = wakers.len() - 1;
        requests_are_conserved_over_polls(states.drop_last(), wakers.drop_last());
        requests_are_conserved(states[last], wakers[last], states[last + 1]);
    }
}

/// A frame goes out as it was written: however often the driver is polled after
/// a frame was written, the driver either still holds the frame and has sent
/// nothing, or has sent that frame and nothing else.
pub proof fn frame_is_sent_as_written(states: Seq<DriverState>, wakers: Seq<Waker>)
    requires
        polls(states, wakers),
        states.first().slots.tx.is_pending(),
    ensures
        ({
            let written = states.first();
            let now = states.last();
            if now.slots.tx.is_pending() {
                now.slots.tx == written.slots.tx && now.sent() == written.sent()
            } else {
                now.sent() == written.sent().push(written.slots.tx)
            }
        }),
{
    let written = states.first();
    let now = states.last();
    requests_are_conserved_over_polls(states, wakers);
    if now.slots.tx.is_pending() {
        assert(outbound(now).last() == outbound(written).last());
        assert(outbound(now).drop_last() =~= now.sent());
        assert(outbound(written).drop_last() =~= written.sent());
    }
}

/// A request that a poll sent makes room for the next frame.
pub proof fn sent_request_makes_room(before: DriverState, waker: Waker, after: DriverState)
    requires
        before.polled(waker, after),
        after.sent() != before.sent(),
    ensures
        after.sent() == before.sent().push(before.slots.tx),
        after.slots.tx.is_free(),
{
    let taken = after.slots.tx.is_blank();
    offered_message_is_sent_once(before.send_log, waker, before.slots.tx, taken, after.send_log);
}

/// While a frame is unread, polls keep it and receive nothing.
pub proof fn unread_frame_is_kept(before: DriverState, waker: Waker, after: DriverState)
    requires
        before.polled(waker, after),
        before.slots.is_unread(),
    ensures
        after.slots.rx == before.slots.rx,
        after.receive_log == before.receive_log,
{
}

/// A poll receives at most one indication, and holds what it received.
pub proof fn received_indication_is_held(before: DriverState, waker: Waker, after: DriverState)
    requires
        before.polled(waker, after),
        after.received() != before.received(),
    ensures
        after.slots.rx matches Some(indication) && after.received() == before.received().push(
            indication,
        ),
        !before.slots.is_unread(),
{
    lemma_polled_receive(before, waker, after);
}

/// A frame is read as it was received: what the driver holds unread is the last
/// indication that it received. It is so of a new driver, and stays so when the
/// driver is polled, when a frame is written, and when a frame is read.
pub proof fn frame_is_read_as_received<RADIO>(
    stack: StackState<RADIO>,
    fresh: DriverState,
    before: DriverState,
    waker: Waker,
    after: DriverState,
    read: FrameBuffer,
    written: FrameBuffer,
)
    requires
        stack.is_fresh_driver(fresh),
        unread_is_latest(before),
        before.polled(waker, after),
        !read.dirty,
    ensures
        unread_is_latest(fresh),
        unread_is_latest(after),
        unread_is_latest(after.with_slots(after.slots.with_tx_frame(written))),
        unread_is_latest(after.with_slots(after.slots.with_frames(read, written))),
{
    if !before.slots.is_unread() {
        lemma_polled_receive(before, waker, after);
    }
}

/// A frame that has been read makes room: the next poll drops it and asks for
/// another indication.
pub proof fn read_frame_makes_room(before: DriverState, waker: Waker, after: DriverState)
    requires
        before.polled(waker, after),
        before.slots.rx matches Some(indication) && indication.is_read(),
    ensures
        crate::channel::left_with_receiver(before.receive_log, waker, after.receive_log),
        after.slots.rx is None || after.received() == before.received().push(after.slots.rx->0),
{
    lemma_polled_receive(before, waker, after);
}

/// An indication that is not data is never handed out for reading. It stays
/// until another indication takes its place.
pub proof fn management_is_not_handed_out(before: DriverState, waker: Waker, after: DriverState)
    requires
        before.polled(waker, after),
        before.slots.rx matches Some(MacIndication::MlmeIndication(_)),
    ensures
        !before.slots.can_receive(),
        after.slots.rx == before.slots.rx || after.received() == before.received().push(
            after.slots.rx->0,
        ),
{
    lemma_polled_receive(before, waker, after);
}

/// The outgoing slot holds a data request from the start, and polls and tokens
/// keep it so: a frame can always be written once the request before it has
/// been sent.
pub proof fn outgoing_slot_holds_data<RADIO>(
    stack: StackState<RADIO>,
    fresh: DriverState,
    before: DriverState,
    waker: Waker,
    after: DriverState,
    rx: FrameBuffer,
    tx: FrameBuffer,
)
    requires
        stack.is_fresh_driver(fresh),
        before.slots.wf(),
        before.polled(waker, after),
    ensures
        fresh.slots.wf(),
        after.slots.wf(),
        after.slots.with_frames(rx, tx).wf(),
        after.slots.with_tx_frame(tx).wf(),
{
}

/// Over any run of polls, writes, reads and submissions, the outgoing slot holds
/// a data request in every state, if it does in the first.
pub proof fn outgoing_slot_holds_data_throughout(states: Seq<DriverState>, steps: Seq<Step>)
    requires
        runs(states, steps),
        states.first().slots.wf(),
    ensures
        forall|i: int| 0 <= i < states.len() ==> (#[trigger] states[i]).slots.wf(),
    decreases steps.len(),
{
    if steps.len() > 0 {
        let last = steps.len() - 1;
        let earlier = states.drop_last();
        outgoing_slot_holds_data_throughout(earlier, steps.drop_last());
        assert(stepped(states[last], steps[last], states[last + 1]));
        assert forall|i: int| 0 <= i < states.len() implies (#[trigger] states[i]).slots.wf() by {
            if i <= last {
                assert(earlier[i].slots.wf());
            } else {
                assert(earlier[last].slots.wf());
            }
        }
    }
}

/// Where no token for sending is handed out, the poll has left the waker of the
/// polling task with the channel that the request waits for.
pub proof fn refused_transmit_is_watched(before: DriverState, waker: Waker, after: DriverState)
    requires
        before.slots.wf(),
        before.polled(waker, after),
        !after.slots.tx.is_free(),
    ensures
        crate::channel::left_with_sender(before.send_log, waker, after.send_log),
{
    offered_message_is_sent_once(before.send_log, waker, before.slots.tx, false, after.send_log);
}

/// Where no tokens for receiving are handed out, the poll has left the waker of
/// the polling task with a channel: with that of indications where there is no
/// unread frame, with that of requests where there is no room for an answer.
pub proof fn refused_receive_is_watched(before: DriverState, waker: Waker, after: DriverState)
    requires
        before.slots.wf(),
        before.polled(waker, after),
        !after.slots.can_receive(),
    ensures
        !after.slots.is_unread() || !after.slots.tx.is_free(),
        !after.slots.is_unread() ==> crate::channel::left_with_receiver(
            before.receive_log,
            waker,
            after.receive_log,
        ),
        !after.slots.tx.is_free() ==> crate::channel::left_with_sender(
            before.send_log,
            waker,
            after.send_log,
        ),
{
    if !after.slots.is_unread() {
        lemma_polled_receive(before, waker, after);
    }
    if !after.slots.tx.is_free() {
        refused_transmit_is_watched(before, waker, after);
    }
}

/// A poll leaves nothing unmoved that could move. A request that it leaves with
/// the driver is one that the channel had no room for. Where the driver held no
/// unread frame, it has received an indication, or the channel had none.
pub proof fn poll_moves_what_can_move(before: DriverState, waker: Waker, after: DriverState)
    requires
        before.polled(waker, after),
    ensures
        after.slots.tx.is_pending() ==> {
            &&& after.send_log.len() > before.send_log.len()
            &&& {
                ||| after.send_log.last() == SendEvent::<MacRequest>::Polled { ready: false, waker }
                ||| after.send_log.last() == SendEvent::Refused(after.slots.tx)
            }
        },
        !before.slots.is_unread() ==> {
            &&& after.receive_log.len() > before.receive_log.len()
            &&& {
                ||| {
                    &&& after.slots.rx is Some
                    &&& after.received() == before.received().push(after.slots.rx->0)
                }
                ||| after.receive_log.last() == ReceiveEvent::<MacIndication>::Polled {
                    ready: false,
                    waker,
                }
                ||| after.receive_log.last() == ReceiveEvent::<MacIndication>::Empty
            }
        },
{
    if after.slots.rx is Some && crate::channel::fetched(
        before.receive_log,
        waker,
        after.slots.rx,
        after.receive_log,
    ) {
        fetched_message_is_received_once(
            before.receive_log,
            waker,
            after.slots.rx,
            after.receive_log,
        );
    }
}

/// The two tokens that a driver hands out together are used by two steps. A
/// token for sending alone is used by one of them.
pub proof fn tokens_are_used_by_steps(driver: DriverState, rest: FrameBuffer, frame: FrameBuffer)
    requires
        !rest.dirty,
        frame.dirty,
    ensures
        driver.slots.can_receive() ==> {
            let read = driver.with_slots(driver.slots.with_rx_frame(rest));
            &&& stepped(driver, Step::Read { rest }, read)
            &&& stepped(
                read,
                Step::Write { frame },
                driver.with_slots(driver.slots.with_frames(rest, frame)),
            )
        },
        driver.slots.tx.is_free() ==> stepped(
            driver,
            Step::Write { frame },
            driver.with_slots(driver.slots.with_tx_frame(frame)),
        ),
{
}

/// What a step adds to the requests that leave the driver.
proof fn lemma_step_outbound(before: DriverState, step: Step, after: DriverState)
    requires
        stepped(before, step, after),
    ensures
        outbound(after) == match step {
            Step::Write { frame } => outbound(before).push(
                MacRequest::McpsDataRequest(DataRequest { buffer: frame }),
            ),
            Step::Submit { request, taken: true, .. } => if before.slots.tx.is_pending() {
                outbound(before).drop_last().push(request).push(outbound(before).last())
            } else {
                outbound(before).push(request)
            },
            _ => outbound(before),
        },
{
    match step {
        Step::Poll { waker } => {
            requests_are_conserved(before, waker, after);
        },
        Step::Submit { waker, request, taken } => {
            waiting_message_is_not_sent(before.send_log, waker, request, taken, after.send_log);
            if before.slots.tx.is_pending() {
                assert(outbound(before).drop_last() =~= before.sent());
            }
        },
        _ => {},
    }
}

/// Over any run of polls, writes, reads and submissions, the requests that left
/// the driver, followed by the one that it still has to send, are those that
/// were handed to it, in order and each once.
pub proof fn requests_leave_as_handed_in(states: Seq<DriverState>, steps: Seq<Step>)
    requires
        runs(states, steps),
    ensures
        outbound(states.last()) == handed_in(states, steps),
    decreases steps.len(),
{
    if steps.len() > 0 {
        let last = steps.len() - 1;
        requests_leave_as_handed_in(states.drop_last(), steps.drop_last());
        lemma_step_outbound(states[last], steps[last], states[last + 1]);
    }
}

/// Over any run in which the channel takes no submitted request, the requests
/// that left the driver, followed by the one that it still has to send, grow by
/// exactly the frames that were written, in order and each once. So at any
/// moment the frames sent are the first of those written, all of them or all
/// but the last.
pub proof fn frames_are_sent_in_order(states: Seq<DriverState>, steps: Seq<Step>)
    requires
        runs(states, steps),
        forall|i: int|
            0 <= i < steps.len() ==> !((#[trigger] steps[i]) matches Step::Submit {
                taken: true,
                ..
            }),
    ensures
        outbound(states.last()) == outbound(states.first()) + written(steps),
        states.last().sent() == if states.last().slots.tx.is_pending() {
            (outbound(states.first()) + written(steps)).drop_last()
        } else {
            outbound(states.first()) + written(steps)
        },
        forall|i: int|
            0 <= i < written(steps).len() ==> (#[trigger] written(steps)[i]).is_pending(),
    decreases steps.len(),
{
    if steps.len() > 0 {
        let last = steps.len() - 1;
        frames_are_sent_in_order(states.drop_last(), steps.drop_last());
        lemma_step_outbound(states[last], steps[last], states[last + 1]);
        assert(stepped(states[last], steps[last], states[last + 1]));
    }
    assert(outbound(states.last()) =~= outbound(states.first()) + written(steps));
    if states.last().slots.tx.is_pending() {
        assert(outbound(states.last()).drop_last() =~= states.last().sent());
    }
}

/// What a step adds to the indications with a frame that the driver no longer
/// holds: the one that it reads.
proof fn lemma_step_inbound(before: DriverState, step: Step, after: DriverState)
    requires
        stepped(before, step, after),
        unread_is_latest(before),
    ensures
        unread_is_latest(after),
        no_longer_held(after) == match step {
            Step::Read { .. } => no_longer_held(before).push(before.slots.rx->0),
            _ => no_longer_held(before),
        },
{
    match step {
        Step::Poll { waker } => {
            if !before.slots.is_unread() {
                lemma_polled_receive(before, waker, after);
                if after.received() != before.received() {
                    assert(after.received().drop_last() =~= before.received());
                    assert(with_frame(after.received()).drop_last() =~= with_frame(
                        before.received(),
                    ) || !after.slots.is_unread());
                }
            }
        },
        Step::Read { .. } => {
            let frames = with_frame(before.received());
            assert(frames.drop_last().push(frames.last()) =~= frames);
        },
        _ => {},
    }
}

/// Over any run of polls, writes, reads and submissions, the indications handed
/// out for reading are those with a frame that the driver received, in order
/// and each once, all of them but for one that it still holds.
pub proof fn frames_are_read_in_order(states: Seq<DriverState>, steps: Seq<Step>)
    requires
        runs(states, steps),
        unread_is_latest(states.first()),
    ensures
        unread_is_latest(states.last()),
        no_longer_held(states.last()) == no_longer_held(states.first()) + handed_out(states, steps),
    decreases steps.len(),
{
    if steps.len() > 0 {
        let last = steps.len() - 1;
        frames_are_read_in_order(states.drop_last(), steps.drop_last());
        lemma_step_inbound(states[last], steps[last], states[last + 1]);
    }
    assert(no_longer_held(states.last()) =~= no_longer_held(states.first()) + handed_out(
        states,
        steps,
    ));
}

/// To the two ends that a stack gives out nothing has happened yet: nothing was
/// handed to the driver, sent, received or handed out, and nothing was taken or
/// reported at the far end.
pub proof fn nothing_moved_at_first<RADIO>(stack: StackState<RADIO>, fresh: DriverState)
    requires
        stack.is_fresh_driver(fresh),
    ensures
        fresh.slots.wf(),
        outbound(fresh).len() == 0,
        unread_is_latest(fresh),
        fresh.received().len() == 0,
        no_longer_held(fresh).len() == 0,
        stack.fresh_upper_layer().taken().len() == 0,
        stack.fresh_upper_layer().reported().len() == 0,
{
}

/// Over any run, as long as the channel gives out what the driver sent, in order
/// and each once, the requests that the far end takes are the first of those
/// that were handed to the driver.
pub proof fn requests_arrive_as_handed_in(
    states: Seq<DriverState>,
    steps: Seq<Step>,
    upper: UpperLayerState,
)
    requires
        runs(states, steps),
        upper.taken().is_prefix_of(states.last().sent()),
    ensures
        upper.taken().is_prefix_of(handed_in(states, steps)),
{
    requests_leave_as_handed_in(states, steps);
}

/// Over any run in which the channel takes no submitted request, as long as the
/// channel gives out what the driver sent, in order and each once, what the far
/// end takes are the first of the frames that were written, behind those that
/// were handed to the driver before. Each is a data request that holds its
/// frame.
pub proof fn frames_arrive_as_written(
    states: Seq<DriverState>,
    steps: Seq<Step>,
    upper: UpperLayerState,
)
    requires
        runs(states, steps),
        forall|i: int|
            0 <= i < steps.len() ==> !((#[trigger] steps[i]) matches Step::Submit {
                taken: true,
                ..
            }),
        upper.taken().is_prefix_of(states.last().sent()),
    ensures
        upper.taken().is_prefix_of(outbound(states.first()) + written(steps)),
        outbound(states.first()).len() == 0 ==> {
            &&& upper.taken().is_prefix_of(written(steps))
            &&& forall|i: int|
                0 <= i < upper.taken().len() ==> (#[trigger] upper.taken()[i]).is_pending()
        },
{
    frames_are_sent_in_order(states, steps);
    if outbound(states.first()).len() == 0 {
        assert(outbound(states.first()) + written(steps) =~= written(steps));
        assert forall|i: int| 0 <= i < upper.taken().len() implies (
        #[trigger] upper.taken()[i]).is_pending() by {
            assert(upper.taken()[i] == written(steps)[i]);
        }
    }
}

/// The indications with a frame among the first of some are the first of those
/// with a frame among all.
proof fn lemma_with_frame_prefix(first: Seq<MacIndication>, all: Seq<MacIndication>)
    requires
        first.is_prefix_of(all),
    ensures
        with_frame(first).is_prefix_of(with_frame(all)),
    decreases all.len(),
{
    if first.len() == all.len() {
        assert(first =~= all);
    } else {
        lemma_with_frame_prefix(first, all.drop_last());
    }
}

/// Over any run, as long as the channel gives out what the far end reported, in
/// order and each once, the indications handed out for reading are the first of
/// those with a frame that were reported, behind those handed out before.
pub proof fn frames_are_read_as_reported(
    states: Seq<DriverState>,
    steps: Seq<Step>,
    upper: UpperLayerState,
)
    requires
        runs(states, steps),
        unread_is_latest(states.first()),
        states.last().received().is_prefix_of(upper.reported()),
    ensures
        (no_longer_held(states.first()) + handed_out(states, steps)).is_prefix_of(
            with_frame(upper.reported()),
        ),
        no_longer_held(states.first()).len() == 0 ==> handed_out(states, steps).is_prefix_of(
            with_frame(upper.reported()),
        ),
{
    frames_are_read_in_order(states, steps);
    lemma_with_frame_prefix(states.last().received(), upper.reported());
    if no_longer_held(states.first()).len() == 0 {
        assert(no_longer_held(states.first()) + handed_out(states, steps) =~= handed_out(
            states,
            steps,
        ));
    }
}

/// A poll keeps to the burst size: it sends at most that many requests and
/// receives at most that many indications.
pub proof fn poll_keeps_to_burst_size(before: DriverState, waker: Waker, after: DriverState)
    requires
        before.polled(waker, after),
    ensures
        after.sent().len() <= before.sent().len() + crate::driver::MAX_BURST_SIZE,
        after.received().len() <= before.received().len() + crate::driver::MAX_BURST_SIZE,
{
    if after.sent() != before.sent() {
        sent_request_makes_room(before, waker, after);
    }
    if after.received() != before.received() {
        received_indication_is_held(before, waker, after);
    }
}

/// A driver and the upper layer that a stack gives out are the two ends of the
/// same channels of the stack, and the driver has the address of the stack,
/// whether the driver is made before the stack is started or
/// after, and polls keep the driver on them.
pub proof fn ends_meet<RADIO>(
    stack: StackState<RADIO>,
    early: DriverState,
    late: DriverState,
    waker: Waker,
    polled: DriverState,
)
    requires
        stack.is_fresh_driver(early),
        stack.started().is_fresh_driver(late),
        early.polled(waker, polled),
    ensures
        early.hardware_addr == stack.hardware_addr,
        early.requests == stack.links.requests,
        early.indications == stack.links.indications,
        early.requests == stack.fresh_upper_layer().requests,
        early.indications == stack.fresh_upper_layer().indications,
        late.requests == early.requests,
        late.indications == early.indications,
        late.hardware_addr == early.hardware_addr,
        polled.requests == early.requests,
        polled.indications == early.indications,
        polled.hardware_addr == early.hardware_addr,
{
}

/// A stack that holds its radio can be started, and it is started once: whatever
/// state it is in, it is running after it has been started, and a running stack
/// stays as it is when it is started again.
pub proof fn stack_runs_once<RADIO>(stack: StackState<RADIO>)
    ensures
        stack.radio is Some ==> !stack.is_running(),
        stack.started().is_running(),
        stack.started().radio is None,
        stack.started().links == stack.links,
        stack.started().hardware_addr == stack.hardware_addr,
        stack.started().started() == stack.started(),
{
}

} // verus!
