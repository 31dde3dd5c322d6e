//! The pass-through reader: delegates reads to a wrapped byte source and
//! checksums exactly the bytes the source actually produced.

use vstd::prelude::*;
use vstd::slice::slice_subrange;

use crate::crc::Crc;

verus! {

/// A source of bytes, the capability a `CrcReader` wraps: read up to
/// `buf.len()` bytes into the front of `buf`, and return either how many
/// were produced — 0 signalling end of stream — or an error of the
/// source's own.  Every source keeps the buffer's length and never claims
/// to have produced more bytes than fit in it.
pub trait ByteSource {
    /// The error a failed read surfaces.
    type Error;

    /// Read up to `buf.len()` bytes into the front of `buf`.
    fn read(&mut self, buf: &mut Vec<u8>) -> (r: Result<usize, Self::Error>)
        ensures
            final(buf)@.len() == old(buf)@.len(),
            r matches Ok(n) ==> n <= old(buf)@.len(),
    ;
}

/// A pass-through decorator around a byte source: every read is forwarded
/// to the source, and the bytes the source actually produced — never the
/// rest of the buffer — are fed into an owned `Crc` accumulator.  Its view
/// is the sequence of all bytes checksummed so far.
pub struct CrcReader<R> {
    inner: R,
    crc: Crc,
}

impl<R> View for CrcReader<R> {
    type V = Seq<u8>;

    closed spec fn view(&self) -> Seq<u8> {
        self.crc@
    }
}

impl<R: ByteSource> CrcReader<R> {
    /// The wrapped source.
    pub closed spec fn spec_inner(&self) -> R {
        self.inner
    }

    /// Wrap `inner`: a fresh accumulator, with no bytes checksummed yet.
    pub fn new(inner: R) -> (r: CrcReader<R>)
        ensures
            r@ == Seq::<u8>::empty(),
            r.spec_inner() == inner,
    {
        CrcReader { inner, crc: Crc::new() }
    }

    /// The accumulator over every byte read through this wrapper so far.
    pub fn crc(&self) -> (r: &Crc)
        ensures
            r@ == self@,
    {
        &self.crc
    }

    /// Consume the wrapper and hand the wrapped source back, exactly as it
    /// stands — wrapping never touches the source beyond forwarding reads,
    /// so its remaining content is what it would have been unwrapped.
    pub fn unwrap(self) -> (r: R)
        ensures
            r == self.spec_inner(),
    {
        self.inner
    }

    /// Borrow the wrapped source directly.  Bytes read through this borrow
    /// bypass the wrapper and are not checksummed: the accumulator's bytes
    /// are exactly as before, whatever is done with the borrow.
    pub fn inner(&mut self) -> (r: &mut R)
        ensures
            *r == old(self).spec_inner(),
            final(self).spec_inner() == *final(r),
            final(self)@ == old(self)@,
    {
        &mut self.inner
    }

    /// Forward one read to the wrapped source.  On success with count `n`,
    /// exactly the `n` bytes the source produced — the filled prefix of the
    /// buffer, not its whole capacity — are fed to the accumulator, so a
    /// count of 0 (end of stream) feeds nothing.  On an error the source's
    /// error is returned as it came and the accumulator is untouched.
    pub fn read(&mut self, buf: &mut Vec<u8>) -> (r: Result<usize, R::Error>)
        requires
            old(self)@.len() + old(buf)@.len() <= u32::MAX,
        ensures
            final(buf)@.len() == old(buf)@.len(),
            match r {
                Ok(n) => n <= old(buf)@.len() && final(self)@ == old(self)@ + final(buf)@.subrange(
                    0,
                    n as int,
                ),
                Err(_) => final(self)@ == old(self)@,
            },
            r matches Ok(n) && n == 0 ==> final(self)@ == old(self)@,
            final(self)@.len() <= old(self)@.len() + old(buf)@.len(),
    {
        match self.inner.read(buf) {
            Ok(n) => {
                let filled: &[u8] = slice_subrange(buf.as_slice(), 0, n);
                self.crc.update(filled);
                proof {
                    if n == 0 {
                        assert(old(self)@ + filled@ =~= old(self)@);
                    }
                }
                Ok(n)
            },
            Err(e) => Err(e),
        }
    }
}

} // verus!
