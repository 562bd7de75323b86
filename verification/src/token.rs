//! The tokens by which a network stack reads and writes frames.

use vstd::prelude::*;

use crate::mac::FrameBuffer;

verus! {

/// The right to fill a frame buffer that is free, and so to send one frame.
pub struct TxToken<'a> {
    frame: &'a mut FrameBuffer,
}

impl<'a> TxToken<'a> {
    /// The buffer that the token is about.
    pub closed spec fn frame(self) -> &'a mut FrameBuffer {
        self.frame
    }

    pub(crate) fn new(frame: &'a mut FrameBuffer) -> (token: Self)
        ensures
            *token.frame() == *old(frame),
            *final(token.frame()) == *final(frame),
    {
        TxToken { frame }
    }

    /// A token that is dropped unused leaves its buffer as it was.
    pub proof fn dropped(token: Self)
        requires
            has_resolved(token),
        ensures
            *final(token.frame()) == *token.frame(),
    {
    }

    /// Marks the buffer as holding a frame, and lets `f` write a frame of `len`
    /// bytes into it.
    pub fn consume<R, F>(self, len: usize, f: F) -> (result: R) where
        F: FnOnce(&mut [u8], usize) -> R,

        requires
            forall|bytes: &mut [u8]|
                bytes@ == self.frame().buffer@ ==> #[trigger] call_requires(f, (bytes, len)),
        ensures
            final(self.frame()).dirty,
            exists|bytes: &mut [u8]|
                {
                    &&& bytes@ == self.frame().buffer@
                    &&& final(bytes)@ == final(self.frame()).buffer@
                    &&& #[trigger] call_ensures(f, (bytes, len), result)
                },
    {
        self.frame.dirty = true;
        f(&mut self.frame.buffer, len)
    }
}

/// The right to read a frame buffer that holds an unread frame.
pub struct RxToken<'a> {
    frame: &'a mut FrameBuffer,
}

impl<'a> RxToken<'a> {
    /// The buffer that the token is about.
    pub closed spec fn frame(self) -> &'a mut FrameBuffer {
        self.frame
    }

    pub(crate) fn new(frame: &'a mut FrameBuffer) -> (token: Self)
        ensures
            *token.frame() == *old(frame),
            *final(token.frame()) == *final(frame),
    {
        RxToken { frame }
    }

    /// A token that is dropped unused leaves its buffer as it was.
    pub proof fn dropped(token: Self)
        requires
            has_resolved(token),
        ensures
            *final(token.frame()) == *token.frame(),
    {
    }

    /// Whether the buffer still holds an unread frame.
    pub fn is_new(&self) -> (new: bool)
        ensures
            new == self.frame().dirty,
    {
        self.frame.dirty
    }

    /// Lets `f` read the frame, and marks the buffer as read.
    pub fn consume<R, F>(self, f: F) -> (result: R) where F: FnOnce(&mut [u8]) -> R,
        requires
            self.frame().dirty,
            forall|bytes: &mut [u8]|
                bytes@ == self.frame().buffer@ ==> #[trigger] call_requires(f, (bytes,)),
        ensures
            !final(self.frame()).dirty,
            exists|bytes: &mut [u8]|
                {
                    &&& bytes@ == self.frame().buffer@
                    &&& final(bytes)@ == final(self.frame()).buffer@
                    &&& #[trigger] call_ensures(f, (bytes,), result)
                },
    {
        let result = f(&mut self.frame.buffer);
        self.frame.dirty = false;
        result
    }
}

} // verus!
