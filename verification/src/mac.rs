//! The messages that travel between the driver and the MAC layer.

use vstd::prelude::*;

verus! {

/// The number of bytes in a frame buffer. A MAC frame has at most 127 bytes;
/// radios that put a length or the link quality beside the frame need one more.
pub const FRAME_BUFFER_LEN: usize = 128;

/// A buffer that stores one frame.
#[derive(Debug, Clone, PartialEq, Eq)]
pub struct FrameBuffer {
    /// The bytes of the frame, laid out as the radio wants them.
    pub buffer: [u8; FRAME_BUFFER_LEN],
    /// Whether the buffer holds a frame that nobody has taken out yet.
    pub dirty: bool,
}

impl FrameBuffer {
    /// The buffer that holds no frame: all bytes zero, not dirty.
    pub open spec fn is_blank(self) -> bool {
        &&& !self.dirty
        &&& self.buffer@ == Seq::new(FRAME_BUFFER_LEN as nat, |i: int| 0u8)
    }
}

impl Default for FrameBuffer {
    fn default() -> (frame: Self)
        ensures
            frame.is_blank(),
    {
        let frame = FrameBuffer { buffer: [0u8; FRAME_BUFFER_LEN], dirty: false };
        assert(frame.buffer@ =~= Seq::new(FRAME_BUFFER_LEN as nat, |i: int| 0u8));
        frame
    }
}

/// A request to send a frame.
#[derive(Debug, Clone, PartialEq, Eq)]
pub struct DataRequest {
    pub buffer: FrameBuffer,
}

impl Default for DataRequest {
    fn default() -> (request: Self)
        ensures
            request.buffer.is_blank(),
    {
        DataRequest { buffer: FrameBuffer::default() }
    }
}

/// A frame that the MAC layer received.
#[derive(Debug, Clone, PartialEq, Eq)]
pub struct DataIndication {
    pub buffer: FrameBuffer,
}

/// A management primitive: the driver hands it on and reads nothing of it.
#[derive(Debug, Clone, PartialEq, Eq)]
pub struct MlmePrimitive {
    pub id: u8,
    pub parameters: Vec<u8>,
}

/// What the driver asks of the MAC layer.
#[derive(Debug, Clone, PartialEq, Eq)]
pub enum MacRequest {
    McpsDataRequest(DataRequest),
    MlmeRequest(MlmePrimitive),
}

impl MacRequest {
    /// A data request whose frame waits to be sent.
    pub open spec fn is_pending(self) -> bool {
        self matches MacRequest::McpsDataRequest(request) && request.buffer.dirty
    }

    /// A data request with room for a new frame.
    pub open spec fn is_free(self) -> bool {
        self matches MacRequest::McpsDataRequest(request) && !request.buffer.dirty
    }

    /// A data request with a blank frame.
    pub open spec fn is_blank(self) -> bool {
        self matches MacRequest::McpsDataRequest(request) && request.buffer.is_blank()
    }
}

impl Default for MacRequest {
    fn default() -> (request: Self)
        ensures
            request.is_blank(),
    {
        MacRequest::McpsDataRequest(DataRequest::default())
    }
}

/// What the MAC layer reports to the driver.
#[derive(Debug, Clone, PartialEq, Eq)]
pub enum MacIndication {
    McpsData(DataIndication),
    MlmeIndication(MlmePrimitive),
}

impl MacIndication {
    /// A received frame that has not been read.
    pub open spec fn is_unread(self) -> bool {
        self matches MacIndication::McpsData(indication) && indication.buffer.dirty
    }

    /// A received frame that has been read.
    pub open spec fn is_read(self) -> bool {
        self matches MacIndication::McpsData(indication) && !indication.buffer.dirty
    }
}

} // verus!
