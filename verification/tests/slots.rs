use embassy_ieee802154::slots::Slots;
use embassy_ieee802154::{
    DataIndication, DataRequest, FrameBuffer, MacIndication, MacRequest, MlmePrimitive,
};

fn request(dirty: bool) -> MacRequest {
    let buffer = FrameBuffer { buffer: [3u8; 128], dirty };
    MacRequest::McpsDataRequest(DataRequest { buffer })
}

fn indication(dirty: bool) -> MacIndication {
    let buffer = FrameBuffer { buffer: [4u8; 128], dirty };
    MacIndication::McpsData(DataIndication { buffer })
}

fn management() -> MlmePrimitive {
    MlmePrimitive { id: 1, parameters: vec![2] }
}

#[test]
fn new_slots_are_blank() {
    let slots = Slots::new();
    assert_eq!(slots.rx, None);
    assert_eq!(slots.tx, MacRequest::default());
}

#[test]
fn only_a_dirty_data_request_wants_to_be_sent() {
    assert!(Slots { rx: None, tx: request(true) }.wants_transmit());
    assert!(!Slots { rx: None, tx: request(false) }.wants_transmit());
    assert!(!Slots { rx: None, tx: MacRequest::MlmeRequest(management()) }.wants_transmit());
}

#[test]
fn taken_request_leaves_a_blank_one() {
    let mut slots = Slots { rx: Some(indication(true)), tx: request(true) };
    assert_eq!(slots.take_request(), request(true));
    assert_eq!(slots.tx, MacRequest::default());
    assert_eq!(slots.rx, Some(indication(true)));

    slots.finish_transmit(Ok(()));
    assert_eq!(slots.tx, MacRequest::default());
    slots.finish_transmit(Err(request(true)));
    assert_eq!(slots.tx, request(true));
    assert_eq!(slots.rx, Some(indication(true)));
}

#[test]
fn room_is_made_for_the_next_indication() {
    let mut slots = Slots { rx: None, tx: request(false) };
    assert!(slots.make_room());
    assert_eq!(slots.rx, None);

    slots.rx = Some(indication(true));
    assert!(!slots.make_room());
    assert_eq!(slots.rx, Some(indication(true)));

    slots.rx = Some(indication(false));
    assert!(slots.make_room());
    assert_eq!(slots.rx, None);

    slots.rx = Some(MacIndication::MlmeIndication(management()));
    assert!(slots.make_room());
    assert_eq!(slots.rx, Some(MacIndication::MlmeIndication(management())));
    assert_eq!(slots.tx, request(false));
}

#[test]
fn received_indication_is_stored() {
    let mut slots = Slots::new();
    slots.finish_receive(Some(indication(true)));
    assert_eq!(slots.rx, Some(indication(true)));
    slots.finish_receive(None);
    assert_eq!(slots.rx, Some(indication(true)));
    assert_eq!(slots.tx, MacRequest::default());
}

#[test]
fn tokens_for_an_unread_frame_and_a_free_request_only() {
    for rx_dirty in [false, true] {
        for tx_dirty in [false, true] {
            let mut slots = Slots { rx: Some(indication(rx_dirty)), tx: request(tx_dirty) };
            assert_eq!(slots.receive_tokens().is_some(), rx_dirty && !tx_dirty);
            assert_eq!(slots.transmit_token().is_some(), !tx_dirty);
            assert_eq!(slots.rx, Some(indication(rx_dirty)));
            assert_eq!(slots.tx, request(tx_dirty));
        }
    }

    let mut slots = Slots { rx: None, tx: request(false) };
    assert!(slots.receive_tokens().is_none());
    slots.rx = Some(MacIndication::MlmeIndication(management()));
    assert!(slots.receive_tokens().is_none());
    slots.rx = Some(indication(true));
    slots.tx = MacRequest::MlmeRequest(management());
    assert!(slots.receive_tokens().is_none());
    assert!(slots.transmit_token().is_none());
}

#[test]
fn used_tokens_mark_their_frames() {
    let mut slots = Slots { rx: Some(indication(true)), tx: request(false) };
    let (rx, tx) = slots.receive_tokens().unwrap();
    rx.consume(|bytes| bytes[1] = 9);
    tx.consume(2, |bytes, len| bytes[len] = 8);

    let mut read = [4u8; 128];
    read[1] = 9;
    let mut written = [3u8; 128];
    written[2] = 8;
    let read = FrameBuffer { buffer: read, dirty: false };
    let written = FrameBuffer { buffer: written, dirty: true };
    assert_eq!(slots.rx, Some(MacIndication::McpsData(DataIndication { buffer: read })));
    assert_eq!(slots.tx, MacRequest::McpsDataRequest(DataRequest { buffer: written }));
}
