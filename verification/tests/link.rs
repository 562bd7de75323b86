use std::sync::atomic::{AtomicUsize, Ordering};
use std::sync::Arc;
use std::task::{Context, Wake, Waker};

use embassy_ieee802154::channel::Links;
use embassy_ieee802154::csma::{CsmaConfig, CsmaStack};
use embassy_ieee802154::driver::{
    Checksum, EmbassyUpperLayer, HardwareAddress, Ieee802154Driver, LinkState,
};
use embassy_ieee802154::stack::{AlreadyRunning, RadioStack};
use embassy_ieee802154::{
    DataIndication, DataRequest, FrameBuffer, MacIndication, MacRequest, MlmePrimitive,
};

const ADDRESS: [u8; 8] = [1, 2, 3, 4, 5, 6, 7, 8];

/// A task that counts how often it is woken.
struct Task(AtomicUsize);

impl Wake for Task {
    fn wake(self: Arc<Self>) {
        self.0.fetch_add(1, Ordering::SeqCst);
    }
}

fn task() -> (Arc<Task>, Waker) {
    let task = Arc::new(Task(AtomicUsize::new(0)));
    let waker = Waker::from(task.clone());
    (task, waker)
}

#[derive(Debug, PartialEq)]
struct Radio(u8);

fn ends(links: &mut Links) -> (Ieee802154Driver<'_, Radio>, EmbassyUpperLayer<'_>) {
    let mut stack = RadioStack::new(links, Radio(9), ADDRESS);
    let driver = stack.driver();
    let (_, upper) = stack.run().unwrap();
    (driver, upper)
}

fn frame(first: u8) -> FrameBuffer {
    let mut frame = FrameBuffer::default();
    frame.buffer[0] = first;
    frame.dirty = true;
    frame
}

fn data_indication(first: u8) -> MacIndication {
    MacIndication::McpsData(DataIndication { buffer: frame(first) })
}

fn data_request(first: u8) -> MacRequest {
    MacRequest::McpsDataRequest(DataRequest { buffer: frame(first) })
}

fn management(id: u8) -> MlmePrimitive {
    MlmePrimitive { id, parameters: vec![id, 0xaa] }
}

#[test]
fn blank_frame_and_request() {
    let frame = FrameBuffer::default();
    assert_eq!(frame.buffer, [0u8; 128]);
    assert!(!frame.dirty);
    assert_eq!(
        MacRequest::default(),
        MacRequest::McpsDataRequest(DataRequest { buffer: FrameBuffer::default() })
    );
}

#[test]
fn driver_describes_itself() {
    let mut links = Links::new();
    let (mut driver, _upper) = ends(&mut links);
    let (_, waker) = task();
    let mut cx = Context::from_waker(&waker);

    assert_eq!(driver.hardware_address(), HardwareAddress::Ieee802154(ADDRESS));
    assert_eq!(driver.link_state(&mut cx), LinkState::Up);
    let caps = driver.capabilities();
    assert_eq!(caps.max_transmission_unit, 125);
    assert_eq!(caps.max_burst_size, Some(1));
    assert_eq!(caps.checksum.ipv4, Checksum::Both);
    assert_eq!(caps.checksum.udp, Checksum::Both);
    assert_eq!(caps.checksum.tcp, Checksum::Both);
    assert_eq!(caps.checksum.icmpv4, Checksum::Both);
    assert_eq!(caps.checksum.icmpv6, Checksum::Both);
}

#[test]
fn frame_goes_out_as_written() {
    let mut links = Links::new();
    let (mut driver, mut upper) = ends(&mut links);
    let (_, waker) = task();
    let mut cx = Context::from_waker(&waker);

    let token = driver.transmit(&mut cx).unwrap();
    let result = token.consume(3, |bytes, len| {
        assert_eq!(bytes.len(), 128);
        bytes[..len].copy_from_slice(&[7, 8, 9]);
        "written"
    });
    assert_eq!(result, "written");

    // It leaves the driver with the next poll, and not before.
    assert_eq!(upper.mac_request(&mut cx), None);
    driver.link_state(&mut cx);
    let mut expected = frame(7);
    expected.buffer[1] = 8;
    expected.buffer[2] = 9;
    assert_eq!(
        upper.mac_request(&mut cx),
        Some(MacRequest::McpsDataRequest(DataRequest { buffer: expected }))
    );
    assert_eq!(upper.mac_request(&mut cx), None);

    // A blank frame takes its place.
    driver.transmit(&mut cx).unwrap().consume(0, |bytes, _| {
        assert_eq!(bytes, &[0u8; 128][..]);
    });
}

#[test]
fn unused_transmit_token_sends_nothing() {
    let mut links = Links::new();
    let (mut driver, mut upper) = ends(&mut links);
    let (_, waker) = task();
    let mut cx = Context::from_waker(&waker);

    assert!(driver.transmit(&mut cx).is_some());
    assert!(driver.transmit(&mut cx).is_some());
    assert_eq!(upper.mac_request(&mut cx), None);
}

#[test]
fn requests_are_kept_in_order_while_the_channel_is_full() {
    let mut links = Links::new();
    let (mut driver, mut upper) = ends(&mut links);
    let (_, waker) = task();
    let mut cx = Context::from_waker(&waker);

    driver.transmit(&mut cx).unwrap().consume(1, |bytes, _| bytes[0] = 1);
    // The first frame goes into the channel, the second stays in the driver.
    driver.transmit(&mut cx).unwrap().consume(1, |bytes, _| bytes[0] = 2);
    assert!(driver.transmit(&mut cx).is_none());
    assert!(driver.transmit(&mut cx).is_none());

    assert_eq!(upper.mac_request(&mut cx), Some(data_request(1)));
    assert!(driver.transmit(&mut cx).is_some());
    assert_eq!(upper.mac_request(&mut cx), Some(data_request(2)));
    assert_eq!(upper.mac_request(&mut cx), None);
}

#[test]
fn frame_comes_in_as_reported() {
    let mut links = Links::new();
    let (mut driver, mut upper) = ends(&mut links);
    let (_, waker) = task();
    let mut cx = Context::from_waker(&waker);

    assert!(driver.receive(&mut cx).is_none());
    assert_eq!(upper.received_mac_indication(data_indication(5), &mut cx), Ok(()));

    let (rx, _tx) = driver.receive(&mut cx).unwrap();
    assert!(rx.is_new());
    let first = rx.consume(|bytes| {
        assert_eq!(bytes.len(), 128);
        bytes[0]
    });
    assert_eq!(first, 5);

    // It has been read.
    assert!(driver.receive(&mut cx).is_none());
}

#[test]
fn unread_frame_is_kept_until_read() {
    let mut links = Links::new();
    let (mut driver, mut upper) = ends(&mut links);
    let (_, waker) = task();
    let mut cx = Context::from_waker(&waker);

    assert_eq!(upper.received_mac_indication(data_indication(1), &mut cx), Ok(()));
    assert!(driver.receive(&mut cx).is_some());

    // The tokens were dropped unused: the frame stays, the next one waits.
    assert_eq!(upper.received_mac_indication(data_indication(2), &mut cx), Ok(()));
    assert_eq!(
        upper.received_mac_indication(data_indication(3), &mut cx),
        Err(data_indication(3))
    );
    let (rx, _tx) = driver.receive(&mut cx).unwrap();
    assert_eq!(rx.consume(|bytes| bytes[0]), 1);
    let (rx, _tx) = driver.receive(&mut cx).unwrap();
    assert_eq!(rx.consume(|bytes| bytes[0]), 2);
    assert_eq!(upper.received_mac_indication(data_indication(3), &mut cx), Ok(()));
    let (rx, _tx) = driver.receive(&mut cx).unwrap();
    assert_eq!(rx.consume(|bytes| bytes[0]), 3);
    assert!(driver.receive(&mut cx).is_none());
}

#[test]
fn frame_is_answered() {
    let mut links = Links::new();
    let (mut driver, mut upper) = ends(&mut links);
    let (_, waker) = task();
    let mut cx = Context::from_waker(&waker);

    assert_eq!(upper.received_mac_indication(data_indication(20), &mut cx), Ok(()));
    let (rx, tx) = driver.receive(&mut cx).unwrap();
    let question = rx.consume(|bytes| bytes[0]);
    tx.consume(1, |bytes, _| bytes[0] = question + 1);

    assert!(driver.receive(&mut cx).is_none());
    assert_eq!(upper.mac_request(&mut cx), Some(data_request(21)));
}

#[test]
fn frame_is_not_handed_out_without_room_for_an_answer() {
    let mut links = Links::new();
    let (mut driver, mut upper) = ends(&mut links);
    let (_, waker) = task();
    let mut cx = Context::from_waker(&waker);

    driver.transmit(&mut cx).unwrap().consume(1, |bytes, _| bytes[0] = 1);
    driver.transmit(&mut cx).unwrap().consume(1, |bytes, _| bytes[0] = 2);
    assert_eq!(upper.received_mac_indication(data_indication(3), &mut cx), Ok(()));
    assert!(driver.receive(&mut cx).is_none());

    assert_eq!(upper.mac_request(&mut cx), Some(data_request(1)));
    let (rx, _tx) = driver.receive(&mut cx).unwrap();
    assert_eq!(rx.consume(|bytes| bytes[0]), 3);
}

#[test]
fn management_indication_is_not_handed_out() {
    let mut links = Links::new();
    let (mut driver, mut upper) = ends(&mut links);
    let (_, waker) = task();
    let mut cx = Context::from_waker(&waker);

    let indication = MacIndication::MlmeIndication(management(4));
    assert_eq!(upper.received_mac_indication(indication, &mut cx), Ok(()));
    assert!(driver.receive(&mut cx).is_none());
    // It does not stand in the way of the next indication.
    assert_eq!(upper.received_mac_indication(data_indication(6), &mut cx), Ok(()));
    let (rx, _tx) = driver.receive(&mut cx).unwrap();
    assert_eq!(rx.consume(|bytes| bytes[0]), 6);
}

#[test]
fn read_indication_is_dropped() {
    let mut links = Links::new();
    let (mut driver, mut upper) = ends(&mut links);
    let (_, waker) = task();
    let mut cx = Context::from_waker(&waker);

    let blank = MacIndication::McpsData(DataIndication { buffer: FrameBuffer::default() });
    assert_eq!(upper.received_mac_indication(blank, &mut cx), Ok(()));
    assert!(driver.receive(&mut cx).is_none());
    assert_eq!(upper.received_mac_indication(data_indication(8), &mut cx), Ok(()));
    assert!(driver.receive(&mut cx).is_some());
}

#[test]
fn request_is_submitted_past_the_held_frame() {
    let mut links = Links::new();
    let (mut driver, mut upper) = ends(&mut links);
    let (_, waker) = task();
    let mut cx = Context::from_waker(&waker);

    driver.transmit(&mut cx).unwrap().consume(1, |bytes, _| bytes[0] = 1);
    let request = MacRequest::MlmeRequest(management(3));
    assert_eq!(driver.submit_mac_request(request.clone(), &mut cx), Ok(()));
    // The channel is full now.
    assert_eq!(driver.submit_mac_request(request.clone(), &mut cx), Err(request.clone()));
    assert!(driver.transmit(&mut cx).is_none());

    assert_eq!(upper.mac_request(&mut cx), Some(request));
    assert!(driver.transmit(&mut cx).is_some());
    assert_eq!(upper.mac_request(&mut cx), Some(data_request(1)));
}

#[test]
fn refused_transmit_is_woken() {
    let mut links = Links::new();
    let (mut driver, mut upper) = ends(&mut links);
    let (sender, waker) = task();
    let mut cx = Context::from_waker(&waker);
    let (_, other) = task();
    let mut upper_cx = Context::from_waker(&other);

    driver.transmit(&mut cx).unwrap().consume(1, |bytes, _| bytes[0] = 1);
    driver.transmit(&mut cx).unwrap().consume(1, |bytes, _| bytes[0] = 2);
    assert!(driver.transmit(&mut cx).is_none());
    assert_eq!(sender.0.load(Ordering::SeqCst), 0);
    assert!(upper.mac_request(&mut upper_cx).is_some());
    assert_eq!(sender.0.load(Ordering::SeqCst), 1);
}

#[test]
fn refused_receive_is_woken() {
    let mut links = Links::new();
    let (mut driver, mut upper) = ends(&mut links);
    let (receiver, waker) = task();
    let mut cx = Context::from_waker(&waker);
    let (_, other) = task();
    let mut upper_cx = Context::from_waker(&other);

    assert!(driver.receive(&mut cx).is_none());
    assert_eq!(receiver.0.load(Ordering::SeqCst), 0);
    assert_eq!(upper.received_mac_indication(data_indication(1), &mut upper_cx), Ok(()));
    assert_eq!(receiver.0.load(Ordering::SeqCst), 1);
}

#[test]
fn upper_layer_is_woken() {
    let mut links = Links::new();
    let (mut driver, mut upper) = ends(&mut links);
    let (_, waker) = task();
    let mut cx = Context::from_waker(&waker);
    let (layer, other) = task();
    let mut upper_cx = Context::from_waker(&other);

    // By a request.
    assert_eq!(upper.mac_request(&mut upper_cx), None);
    assert_eq!(driver.submit_mac_request(data_request(1), &mut cx), Ok(()));
    assert_eq!(layer.0.load(Ordering::SeqCst), 1);

    // By room for another indication.
    assert_eq!(upper.received_mac_indication(data_indication(1), &mut upper_cx), Ok(()));
    assert!(upper.received_mac_indication(data_indication(2), &mut upper_cx).is_err());
    assert!(driver.receive(&mut cx).is_some());
    assert_eq!(layer.0.load(Ordering::SeqCst), 2);
}

#[test]
fn stack_is_started_once() {
    let mut links = Links::new();
    let mut stack = RadioStack::new(&mut links, Radio(3), ADDRESS);
    let (_, waker) = task();
    let mut cx = Context::from_waker(&waker);

    let (radio, mut upper) = stack.run().unwrap();
    assert_eq!(radio, Radio(3));
    assert!(matches!(stack.run(), Err(AlreadyRunning)));
    assert!(matches!(stack.run(), Err(AlreadyRunning)));

    // Drivers can still be made, on the same link.
    let mut driver = stack.driver();
    assert_eq!(driver.hardware_address(), HardwareAddress::Ieee802154(ADDRESS));
    assert_eq!(driver.submit_mac_request(data_request(1), &mut cx), Ok(()));
    assert_eq!(upper.mac_request(&mut cx), Some(data_request(1)));
}

#[test]
fn links_are_apart() {
    let mut links = Links::new();
    let mut other_links = Links::new();
    let (mut driver, _upper) = ends(&mut links);
    let (_driver, mut other_upper) = ends(&mut other_links);
    let (_, waker) = task();
    let mut cx = Context::from_waker(&waker);

    assert_eq!(driver.submit_mac_request(data_request(1), &mut cx), Ok(()));
    assert_eq!(other_upper.mac_request(&mut cx), None);
}

#[test]
fn csma_stack_hands_its_configuration_on() {
    let mut links = Links::new();
    let mut config = CsmaConfig::default();
    config.ack_everything = true;
    let mut stack = CsmaStack::new(&mut links, Radio(6), ADDRESS, config);
    let (_, waker) = task();
    let mut cx = Context::from_waker(&waker);

    let mut driver = stack.driver();
    assert_eq!(driver.hardware_address(), HardwareAddress::Ieee802154(ADDRESS));
    let (radio, mut upper, handed_on) = stack.run().unwrap();
    assert_eq!(radio, Radio(6));
    assert_eq!(handed_on, config);
    assert!(handed_on.ack_everything);
    assert!(matches!(stack.run(), Err(AlreadyRunning)));

    driver.transmit(&mut cx).unwrap().consume(1, |bytes, _| bytes[0] = 4);
    driver.link_state(&mut cx);
    assert_eq!(upper.mac_request(&mut cx), Some(data_request(4)));
}

#[test]
fn submission_leaves_a_waker_only_where_it_waits() {
    let mut links = Links::new();
    let (mut driver, mut upper) = ends(&mut links);
    let (submitter, waker) = task();
    let mut cx = Context::from_waker(&waker);
    let (_, other) = task();
    let mut upper_cx = Context::from_waker(&other);

    assert_eq!(driver.submit_mac_request(data_request(1), &mut cx), Ok(()));
    assert_eq!(upper.mac_request(&mut upper_cx), Some(data_request(1)));
    assert_eq!(submitter.0.load(Ordering::SeqCst), 0);

    assert_eq!(driver.submit_mac_request(data_request(2), &mut cx), Ok(()));
    assert_eq!(driver.submit_mac_request(data_request(3), &mut cx), Err(data_request(3)));
    assert_eq!(upper.mac_request(&mut upper_cx), Some(data_request(2)));
    assert_eq!(submitter.0.load(Ordering::SeqCst), 1);
}

#[test]
fn report_leaves_a_waker_only_where_it_waits() {
    let mut links = Links::new();
    let (mut driver, mut upper) = ends(&mut links);
    let (_, waker) = task();
    let mut cx = Context::from_waker(&waker);
    let (reporter, other) = task();
    let mut upper_cx = Context::from_waker(&other);

    assert_eq!(upper.received_mac_indication(data_indication(1), &mut upper_cx), Ok(()));
    driver.receive(&mut cx).unwrap().0.consume(|_| ());
    assert_eq!(reporter.0.load(Ordering::SeqCst), 0);

    assert_eq!(upper.received_mac_indication(data_indication(2), &mut upper_cx), Ok(()));
    assert!(upper.received_mac_indication(data_indication(3), &mut upper_cx).is_err());
    assert!(driver.receive(&mut cx).is_some());
    assert_eq!(reporter.0.load(Ordering::SeqCst), 1);
}

#[test]
fn new_stack_has_empty_channels() {
    let mut links = Links::new();
    let (_, waker) = task();
    let mut cx = Context::from_waker(&waker);

    let (mut driver, mut upper) = ends(&mut links);
    assert_eq!(driver.submit_mac_request(data_request(1), &mut cx), Ok(()));
    assert_eq!(upper.received_mac_indication(data_indication(1), &mut cx), Ok(()));

    // A stack made over the same links finds nothing of that.
    let (mut driver, mut upper) = ends(&mut links);
    assert!(driver.receive(&mut cx).is_none());
    assert_eq!(upper.mac_request(&mut cx), None);
}

#[test]
fn frames_pass_in_order_both_ways() {
    let mut links = Links::new();
    let (mut driver, mut upper) = ends(&mut links);
    let (_, waker) = task();
    let mut cx = Context::from_waker(&waker);

    let mut written = 0u8;
    let mut reported = 0u8;
    let mut sent: Vec<u8> = Vec::new();
    let mut read: Vec<u8> = Vec::new();
    for round in 0..40 {
        if let Some(token) = driver.transmit(&mut cx) {
            written += 1;
            token.consume(1, |bytes, _| bytes[0] = written);
        }
        if upper.received_mac_indication(data_indication(reported + 1), &mut cx).is_ok() {
            reported += 1;
        }
        if round % 3 == 0 {
            if let Some(MacRequest::McpsDataRequest(request)) = upper.mac_request(&mut cx) {
                assert!(request.buffer.dirty);
                sent.push(request.buffer.buffer[0]);
            }
        }
        if round % 2 == 0 {
            if let Some((rx, _tx)) = driver.receive(&mut cx) {
                read.push(rx.consume(|bytes| bytes[0]));
            }
        }
    }
    assert!(sent.len() > 5 && read.len() > 5);
    assert_eq!(sent, (1..=sent.len() as u8).collect::<Vec<u8>>());
    assert_eq!(read, (1..=read.len() as u8).collect::<Vec<u8>>());
}

#[test]
fn poll_moves_both_ways() {
    let mut links = Links::new();
    let (mut driver, mut upper) = ends(&mut links);
    let (_, waker) = task();
    let mut cx = Context::from_waker(&waker);

    driver.transmit(&mut cx).unwrap().consume(1, |bytes, _| bytes[0] = 1);
    assert_eq!(upper.received_mac_indication(data_indication(2), &mut cx), Ok(()));
    driver.poll(&mut cx);
    // The request has left the driver, and there is room for an indication.
    assert_eq!(upper.mac_request(&mut cx), Some(data_request(1)));
    assert_eq!(upper.received_mac_indication(data_indication(3), &mut cx), Ok(()));
    let (rx, _tx) = driver.receive(&mut cx).unwrap();
    assert_eq!(rx.consume(|bytes| bytes[0]), 2);
}
