//! What a stream backend offers to the host.
//!
//! The host takes a backend's answers as they come. Nothing in this library
//! rests on a backend keeping to the rules written beside its methods: the
//! operations in [`crate::io`] bound every count themselves and remember an
//! end of stream once it was reported.

use vstd::prelude::*;

verus! {

/// The one failure that a guest can see on a stream: the stream is broken.
/// It carries nothing; what went wrong is the backend's to log.
#[derive(Debug, Copy, Clone, PartialEq, Eq, Hash, Structural)]
pub struct StreamError {}

/// A backend that bytes are read from.
pub trait HostInputStream {
    /// Reads bytes into the front of `buf`, without waiting for any to
    /// arrive. Answers how many were read, and whether the stream has come
    /// to its end.
    fn read(&mut self, buf: &mut [u8]) -> Result<(u64, bool), StreamError>;

    /// Reads and drops up to `nelem` bytes, without waiting. Answers how
    /// many were dropped, and whether the stream has come to its end.
    fn skip(&mut self, nelem: u64) -> Result<(u64, bool), StreamError>;

    /// Whether a read would find bytes or the end of the stream. Must not
    /// wait and must leave the stream as it is.
    fn ready(&self) -> bool;
}

/// A backend that bytes are written to.
pub trait HostOutputStream {
    /// Writes bytes from the front of `buf`, without waiting for room.
    /// Answers how many were taken; the rest is the caller's to send again.
    fn write(&mut self, buf: &[u8]) -> Result<u64, StreamError>;

    /// Writes up to `nelem` zero bytes, without waiting. Answers how many
    /// were taken. A backend that can extend itself by a run of zeroes does
    /// so here, and no buffer of zeroes is made on its behalf.
    fn write_zeroes(&mut self, nelem: u64) -> Result<u64, StreamError>;

    /// Whether a write would find room. Must not wait and must leave the
    /// stream as it is.
    fn ready(&self) -> bool;
}

} // verus!
