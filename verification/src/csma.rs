//! A stack with a configuration for CSMA.

pub use dot15d4::csma::CsmaConfig;
use vstd::prelude::*;

use crate::channel::Links;
use crate::driver::{EmbassyUpperLayer, Ieee802154Driver};
use crate::stack::{AlreadyRunning, RadioStack, StackState};

verus! {

/// `dot15d4::csma::CsmaConfig`, carried from the maker of a stack to the MAC
/// layer.
#[verifier::external_type_specification]
#[verifier::external_body]
pub struct ExCsmaConfig(CsmaConfig);

/// A radio, the link that it is to be reached over, and the configuration of
/// the MAC layer that is to run it.
pub struct CsmaStack<'ch, RADIO> {
    config: CsmaConfig,
    stack: RadioStack<'ch, RADIO>,
}

impl<'ch, RADIO> View for CsmaStack<'ch, RADIO> {
    type V = StackState<RADIO>;

    closed spec fn view(&self) -> StackState<RADIO> {
        self.stack@
    }
}

impl<'ch, RADIO> CsmaStack<'ch, RADIO> {
    /// The configuration that the stack was made with.
    pub closed spec fn config(self) -> CsmaConfig {
        self.config
    }

    /// Makes a stack of a radio with this address. Its channels are new ones,
    /// with no message in them; they are kept in `links`.
    pub fn new(
        links: &'ch mut Links,
        radio: RADIO,
        hardware_addr: [u8; 8],
        config: CsmaConfig,
    ) -> (stack: Self)
        ensures
            stack@ == (StackState { links: *final(links), radio: Some(radio), hardware_addr }),
            final(links).starts_empty(),
            stack.config() == config,
    {
        CsmaStack { config, stack: RadioStack::new(links, radio, hardware_addr) }
    }

    /// Makes a driver on the near ends of the channels.
    pub fn driver(&self) -> (driver: Ieee802154Driver<'ch, RADIO>)
        ensures
            self@.is_fresh_driver(driver@),
            driver@.hardware_addr == self@.hardware_addr,
            driver@.requests == self@.links.requests,
            driver@.indications == self@.links.indications,
            driver@.send_log.len() == 0,
            driver@.receive_log.len() == 0,
    {
        self.stack.driver()
    }

    /// Starts the stack: gives out the radio, the far ends of the channels and
    /// the configuration, for the MAC layer to run on. A stack that is running
    /// is not started again.
    pub fn run(&mut self) -> (parts: Result<
        (RADIO, EmbassyUpperLayer<'ch>, CsmaConfig),
        AlreadyRunning,
    >)
        ensures
            match parts {
                Ok((radio, upper, config)) => {
                    &&& old(self)@.radio == Some(radio)
                    &&& upper@ == old(self)@.fresh_upper_layer()
                    &&& config == old(self).config()
                },
                Err(_) => old(self)@.is_running(),
            },
            parts is Ok <==> old(self)@.radio is Some,
            final(self)@ == old(self)@.started(),
            final(self)@ == (StackState { radio: None, ..old(self)@ }),
            final(self).config() == old(self).config(),
    {
        match self.stack.run() {
            Ok((radio, upper)) => Ok((radio, upper, self.config)),
            Err(refused) => Err(refused),
        }
    }
}

} // verus!
