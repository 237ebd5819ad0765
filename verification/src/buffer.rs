//! The byte buffer that collects what the container writer puts out.
//!
//! The buffer only grows, and only until it is sealed: once the trailer is
//! written it is sealed, and from then on nothing changes what it holds.

use vstd::prelude::*;
use vstd::slice::slice_to_vec;

verus! {

/// What a buffer holds and whether it still takes bytes.
pub struct SinkState {
    pub bytes: Seq<u8>,
    pub sealed: bool,
}

/// An append-only byte buffer.
#[derive(Debug)]
pub struct BufferSink {
    data: Vec<u8>,
    sealed: bool,
}

impl View for BufferSink {
    type V = SinkState;

    closed spec fn view(&self) -> SinkState {
        SinkState { bytes: self.data@, sealed: self.sealed }
    }
}

impl BufferSink {
    /// An empty buffer that takes bytes.
    pub fn new() -> (sink: BufferSink)
        ensures
            sink@.bytes == Seq::<u8>::empty(),
            !sink@.sealed,
    {
        BufferSink { data: Vec::new(), sealed: false }
    }

    /// Appends `bytes` and returns how many were taken: all of them, or none
    /// once the buffer is sealed.
    pub fn write(&mut self, bytes: &[u8]) -> (n: usize)
        ensures
            final(self)@.sealed == old(self)@.sealed,
            !old(self)@.sealed ==> final(self)@.bytes == old(self)@.bytes + bytes@ && n
                == bytes@.len(),
            old(self)@.sealed ==> final(self)@.bytes == old(self)@.bytes && n == 0,
    {
        if self.sealed {
            0
        } else {
            self.data.extend_from_slice(bytes);
            assert(self.data@ =~= old(self).data@ + bytes@);
            bytes.len()
        }
    }

    /// Seals the buffer: what it holds is final.
    pub fn seal(&mut self)
        ensures
            final(self)@.sealed,
            final(self)@.bytes == old(self)@.bytes,
    {
        self.sealed = true;
    }

    /// Whether the buffer is sealed.
    pub fn is_sealed(&self) -> (b: bool)
        ensures
            b == self@.sealed,
    {
        self.sealed
    }

    /// The number of bytes held.
    pub fn len(&self) -> (n: usize)
        ensures
            n == self@.bytes.len(),
    {
        self.data.len()
    }

    /// Whether no byte is held.
    pub fn is_empty(&self) -> (b: bool)
        ensures
            b == (self@.bytes.len() == 0),
    {
        self.data.len() == 0
    }

    /// The bytes held.
    pub fn as_slice(&self) -> (s: &[u8])
        ensures
            s@ == self@.bytes,
    {
        self.data.as_slice()
    }

    /// Gives up the buffer for the bytes it holds, without copying them.
    pub fn into_bytes(self) -> (out: Vec<u8>)
        ensures
            out@ == self@.bytes,
    {
        self.data
    }

    /// A copy of the bytes held.
    pub fn to_bytes(&self) -> (out: Vec<u8>)
        ensures
            out@ == self@.bytes,
    {
        slice_to_vec(self.data.as_slice())
    }
}

/// What the holder of a finished buffer has of it: the buffer itself, or a
/// look at a buffer that others still hold too.
pub enum Claim<'a> {
    Exclusive(BufferSink),
    Shared(&'a BufferSink),
}

impl<'a> Claim<'a> {
    /// The buffer that is claimed.
    pub open spec fn sink(self) -> BufferSink {
        match self {
            Claim::Exclusive(sink) => sink,
            Claim::Shared(sink) => *sink,
        }
    }
}

/// How the bytes of a finished buffer were obtained.
#[derive(Clone, Copy, Debug, PartialEq, Eq, Structural)]
pub enum Handoff {
    Moved,
    Copied,
}

/// Takes the bytes of a finished buffer: moved out of a buffer held alone,
/// copied out of a shared one. Either way they are the bytes the buffer
/// holds, in number and content.
pub fn collect(claim: Claim) -> (out: (Vec<u8>, Handoff))
    ensures
        out.0@ == claim.sink()@.bytes,
        out.0@.len() == claim.sink()@.bytes.len(),
        out.1 == Handoff::Moved <==> claim is Exclusive,
{
    match claim {
        Claim::Exclusive(sink) => (sink.into_bytes(), Handoff::Moved),
        Claim::Shared(sink) => (sink.to_bytes(), Handoff::Copied),
    }
}

} // verus!
