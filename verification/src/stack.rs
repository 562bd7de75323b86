//! The owner of the radio.

use vstd::prelude::*;

use crate::channel::Links;
use crate::driver::{DriverState, EmbassyUpperLayer, Ieee802154Driver, UpperLayerState};

verus! {

/// The stack is running already.
#[derive(Debug, Clone, Copy, PartialEq, Eq)]
pub struct AlreadyRunning;

/// A radio and the link that it is to be reached over.
pub struct RadioStack<'ch, RADIO> {
    links: &'ch Links,
    radio: Option<RADIO>,
    hardware_addr: [u8; 8],
}

/// The state of a [`RadioStack`].
pub struct StackState<RADIO> {
    /// The channels of the link.
    pub links: Links,
    /// The radio, until the stack is started.
    pub radio: Option<RADIO>,
    /// The address of the radio.
    pub hardware_addr: [u8; 8],
}

impl<RADIO> StackState<RADIO> {
    /// The stack has been started.
    pub open spec fn is_running(self) -> bool {
        self.radio is None
    }

    /// The stack once it has been started.
    pub open spec fn started(self) -> StackState<RADIO> {
        StackState { radio: None, ..self }
    }

    /// A driver of this stack to which nothing has happened yet: on the near
    /// ends of its channels, with the address of its radio, without a frame.
    pub open spec fn is_fresh_driver(self, driver: DriverState) -> bool {
        &&& driver.slots.rx is None
        &&& driver.slots.tx.is_blank()
        &&& driver == (DriverState {
            slots: driver.slots,
            requests: self.links.requests,
            indications: self.links.indications,
            send_log: Seq::empty(),
            receive_log: Seq::empty(),
            hardware_addr: self.hardware_addr,
        })
    }

    /// The far ends of the channels of this stack, to which nothing has
    /// happened yet.
    pub open spec fn fresh_upper_layer(self) -> UpperLayerState {
        UpperLayerState {
            requests: self.links.requests,
            indications: self.links.indications,
            receive_log: Seq::empty(),
            send_log: Seq::empty(),
        }
    }
}

impl<'ch, RADIO> View for RadioStack<'ch, RADIO> {
    type V = StackState<RADIO>;

    closed spec fn view(&self) -> StackState<RADIO> {
        StackState {
            links: *self.links,
            radio: self.radio,
            hardware_addr: self.hardware_addr,
        }
    }
}

impl<'ch, RADIO> RadioStack<'ch, RADIO> {
    /// Makes a stack of a radio with this address. Its channels are new ones,
    /// with no message in them; they are kept in `links`.
    pub fn new(links: &'ch mut Links, radio: RADIO, hardware_addr: [u8; 8]) -> (stack: Self)
        ensures
            stack@ == (StackState { links: *final(links), radio: Some(radio), hardware_addr }),
            final(links).starts_empty(),
    {
        *links = Links::new();
        RadioStack { links, radio: Some(radio), hardware_addr }
    }

    /// Makes a driver on the near ends of the channels.
    pub fn driver(&self) -> (driver: Ieee802154Driver<'ch, RADIO>)
        ensures
            self@.is_fresh_driver(driver@),
            driver@.hardware_addr == self@.hardware_addr,
            driver@.requests == self@.links.requests,
            driver@.indications == self@.links.indications,
            driver@.send_log.len() == 0,
            driver@.receive_log.len() == 0,
    {
        Ieee802154Driver::new(
            self.links.requests.sender(),
            self.links.indications.receiver(),
            self.hardware_addr,
        )
    }

    /// Starts the stack: gives out the radio and the far ends of the channels,
    /// for the MAC layer to run on. A stack that is running is not started
    /// again.
    pub fn run(&mut self) -> (parts: Result<(RADIO, EmbassyUpperLayer<'ch>), AlreadyRunning>)
        ensures
            match parts {
                Ok((radio, upper)) => {
                    &&& old(self)@.radio == Some(radio)
                    &&& upper@ == old(self)@.fresh_upper_layer()
                },
                Err(_) => old(self)@.is_running(),
            },
            parts is Ok <==> old(self)@.radio is Some,
            final(self)@ == old(self)@.started(),
            final(self)@ == (StackState { radio: None, ..old(self)@ }),
    {
        match self.radio.take() {
            Some(radio) => {
                let upper = EmbassyUpperLayer::new(
                    self.links.requests.receiver(),
                    self.links.indications.sender(),
                );
                Ok((radio, upper))
            },
            None => Err(AlreadyRunning),
        }
    }
}

} // verus!
