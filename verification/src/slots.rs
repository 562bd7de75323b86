//! What the driver holds between two polls: at most one indication that came
//! in and one request that is to go out.

use vstd::prelude::*;

use crate::mac::{DataIndication, DataRequest, FrameBuffer, MacIndication, MacRequest};
use crate::token::{RxToken, TxToken};

verus! {

/// The two messages that the driver holds.
pub struct Slots {
    /// The indication that came last, until it has been read.
    pub rx: Option<MacIndication>,
    /// The request that a frame is written into, until it is sent.
    pub tx: MacRequest,
}

impl Slots {
    /// The outgoing slot always holds a data request.
    pub open spec fn wf(self) -> bool {
        self.tx is McpsDataRequest
    }

    /// The incoming slot holds a frame that has not been read.
    pub open spec fn is_unread(self) -> bool {
        self.rx matches Some(indication) && indication.is_unread()
    }

    /// A frame can be read, and an answer to it can be written.
    pub open spec fn can_receive(self) -> bool {
        self.is_unread() && self.tx.is_free()
    }

    /// The slots with a data indication and a data request that carry these
    /// frames.
    pub open spec fn with_frames(self, rx: FrameBuffer, tx: FrameBuffer) -> Slots {
        self.with_rx_frame(rx).with_tx_frame(tx)
    }

    /// The slots with a data indication that carries this frame.
    pub open spec fn with_rx_frame(self, rx: FrameBuffer) -> Slots {
        Slots { rx: Some(MacIndication::McpsData(DataIndication { buffer: rx })), ..self }
    }

    /// The slots with a data request that carries this frame.
    pub open spec fn with_tx_frame(self, tx: FrameBuffer) -> Slots {
        Slots { tx: MacRequest::McpsDataRequest(DataRequest { buffer: tx }), ..self }
    }

    /// Nothing came in yet, and a blank frame is ready to be written.
    pub fn new() -> (slots: Self)
        ensures
            slots.rx is None,
            slots.tx.is_blank(),
            slots.wf(),
    {
        Slots { rx: None, tx: MacRequest::default() }
    }

    /// Whether there is a request for the channel to take.
    pub fn wants_transmit(&self) -> (wants: bool)
        ensures
            wants == self.tx.is_pending(),
            wants == (self.tx matches MacRequest::McpsDataRequest(request)
                && request.buffer.dirty),
    {
        match &self.tx {
            MacRequest::McpsDataRequest(request) => request.buffer.dirty,
            _ => false,
        }
    }

    /// Takes the request out and leaves a blank one.
    pub fn take_request(&mut self) -> (request: MacRequest)
        ensures
            request == old(self).tx,
            final(self).tx.is_blank(),
            final(self).rx == old(self).rx,
    {
        let mut request = MacRequest::default();
        core::mem::swap(&mut self.tx, &mut request);
        request
    }

    /// Puts a request that the channel gave back into the slot, to try again.
    pub fn finish_transmit(&mut self, outcome: Result<(), MacRequest>)
        ensures
            final(self).rx == old(self).rx,
            final(self).tx == match outcome {
                Ok(()) => old(self).tx,
                Err(request) => request,
            },
    {
        if let Err(request) = outcome {
            // Put it back and retry.
            self.tx = request;
        }
    }

    /// Drops a frame that has been read, and tells whether another indication
    /// may come in.
    pub fn make_room(&mut self) -> (room: bool)
        ensures
            room == !old(self).is_unread(),
            final(self).tx == old(self).tx,
            final(self).rx == without_read(old(self).rx),
            match old(self).rx {
                Some(MacIndication::McpsData(indication)) => {
                    &&& room == !indication.buffer.dirty
                    &&& final(self).rx == if indication.buffer.dirty {
                        old(self).rx
                    } else {
                        None
                    }
                },
                _ => room && final(self).rx == old(self).rx,
            },
    {
        if let Some(MacIndication::McpsData(indication)) = &self.rx {
            if !indication.buffer.dirty {
                self.rx = None;
            } else {
                // A frame that has not been read stays.
                return false;
            }
        }
        true
    }

    /// Stores an indication that came in.
    pub fn finish_receive(&mut self, outcome: Option<MacIndication>)
        ensures
            final(self).tx == old(self).tx,
            final(self).rx == match outcome {
                Some(indication) => Some(indication),
                None => old(self).rx,
            },
    {
        if let Some(indication) = outcome {
            self.rx = Some(indication);
        }
    }

    /// The tokens for reading the frame that came in and for writing an answer.
    pub fn receive_tokens(&mut self) -> (tokens: Option<(RxToken<'_>, TxToken<'_>)>)
        ensures
            tokens is Some <==> old(self).can_receive(),
            match (old(self).rx, old(self).tx) {
                (
                    Some(MacIndication::McpsData(indication)),
                    MacRequest::McpsDataRequest(request),
                ) => tokens is Some <==> indication.buffer.dirty && !request.buffer.dirty,
                _ => tokens is None,
            },
            tokens matches Some((rx, tx)) ==> {
                &&& old(self).rx == Some(
                    MacIndication::McpsData(DataIndication { buffer: *rx.frame() }),
                )
                &&& old(self).tx == MacRequest::McpsDataRequest(
                    DataRequest { buffer: *tx.frame() },
                )
                &&& final(self).rx == Some(
                    MacIndication::McpsData(DataIndication { buffer: *final(rx.frame()) }),
                )
                &&& final(self).tx == MacRequest::McpsDataRequest(
                    DataRequest { buffer: *final(tx.frame()) },
                )
            },
            match tokens {
                Some((rx, tx)) => {
                    &&& *old(self) == old(self).with_frames(*rx.frame(), *tx.frame())
                    &&& *final(self) == old(self).with_frames(
                        *final(rx.frame()),
                        *final(tx.frame()),
                    )
                    &&& rx.frame().dirty
                    &&& !tx.frame().dirty
                },
                None => *final(self) == *old(self),
            },
    {
        match (&mut self.rx, &mut self.tx) {
            (
                Some(MacIndication::McpsData(indication)),
                MacRequest::McpsDataRequest(request),
            ) => {
                if !request.buffer.dirty && indication.buffer.dirty {
                    let rx = RxToken::new(&mut indication.buffer);
                    let tx = TxToken::new(&mut request.buffer);
                    Some((rx, tx))
                } else {
                    None
                }
            },
            _ => None,
        }
    }

    /// The token for writing a frame.
    pub fn transmit_token(&mut self) -> (token: Option<TxToken<'_>>)
        ensures
            token is Some <==> old(self).tx.is_free(),
            token is Some <==> (old(self).tx matches MacRequest::McpsDataRequest(request)
                && !request.buffer.dirty),
            final(self).rx == old(self).rx,
            token matches Some(tx) ==> {
                &&& old(self).tx == MacRequest::McpsDataRequest(
                    DataRequest { buffer: *tx.frame() },
                )
                &&& final(self).tx == MacRequest::McpsDataRequest(
                    DataRequest { buffer: *final(tx.frame()) },
                )
            },
            match token {
                Some(tx) => {
                    &&& *old(self) == old(self).with_tx_frame(*tx.frame())
                    &&& *final(self) == old(self).with_tx_frame(*final(tx.frame()))
                    &&& !tx.frame().dirty
                },
                None => *final(self) == *old(self),
            },
    {
        match &mut self.tx {
            MacRequest::McpsDataRequest(request) => {
                if request.buffer.dirty {
                    return None;
                }
                Some(TxToken::new(&mut request.buffer))
            },
            _ => None,
        }
    }
}

/// An incoming slot from which a frame that has been read is dropped.
pub open spec fn without_read(rx: Option<MacIndication>) -> Option<MacIndication> {
    if rx matches Some(indication) && indication.is_read() {
        None
    } else {
        rx
    }
}

} // verus!
