//! A bridge between an IEEE 802.15.4 MAC layer and a token based network
//! driver.
//!
//! The two sides run as separate tasks and exchange [`MacRequest`]s and
//! [`MacIndication`]s over two channels that each hold one message.
//!
//! - [`mac`]: the messages and the frame buffers that they carry.
//! - [`channel`]: the two channels and the handles on their ends.
//! - [`token`]: the rights to read and to write a frame.
//! - [`slots`]: what the driver holds between two polls.
//! - [`driver`]: the two ends, one for the network stack and one for the MAC
//!   layer.
//! - [`stack`] and [`csma`]: the owners of the radio.
//! - [`terms`]: what the words in the contracts come to, field by field.
//! - [`laws`]: what holds of all of it together.

pub use dot15d4::frame;
pub use dot15d4::phy::{config, radio};

pub mod channel;
pub mod csma;
pub mod driver;
pub mod laws;
pub mod mac;
pub mod slots;
pub mod stack;
pub mod terms;
pub mod token;

pub use channel::Links;
pub use mac::{DataIndication, DataRequest, FrameBuffer, MacIndication, MacRequest, MlmePrimitive};
