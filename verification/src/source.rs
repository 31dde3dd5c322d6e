//! An in-memory byte source, the simplest thing a `CrcReader` can wrap.

use vstd::prelude::*;

use crate::reader::ByteSource;

verus! {

/// A byte source over a vector held in memory: each read hands out the
/// next bytes in order, as many as the buffer has room for, and it never
/// fails.  Once all bytes are gone every read reports end of stream.
pub struct MemSource {
    data: Vec<u8>,
    pos: usize,
}

impl MemSource {
    #[verifier::type_invariant]
    spec fn inv(self) -> bool {
        self.pos <= self.data@.len()
    }

    /// The bytes not yet handed out.
    pub closed spec fn remaining(&self) -> Seq<u8> {
        self.data@.subrange(self.pos as int, self.data@.len() as int)
    }

    /// A source that will hand out exactly the bytes of `data`, in order.
    pub fn new(data: Vec<u8>) -> (r: MemSource)
        ensures
            r.remaining() == data@,
    {
        let r = MemSource { data, pos: 0 };
        proof {
            assert(r.remaining() =~= r.data@);
        }
        r
    }
}

impl ByteSource for MemSource {
    type Error = ();

    /// Copy the next bytes into the front of `buf`: as many as remain, but
    /// no more than fit.  The rest of the buffer is left as it was, the
    /// bytes handed out are no longer remaining, and the read never fails.
    fn read(&mut self, buf: &mut Vec<u8>) -> (r: Result<usize, ()>)
        ensures
            r is Ok,
            r matches Ok(n) ==> ({
                &&& n == if old(buf)@.len() <= old(self).remaining().len() {
                    old(buf)@.len()
                } else {
                    old(self).remaining().len()
                }
                &&& final(self).remaining() == old(self).remaining().skip(n as int)
                &&& final(buf)@ == old(self).remaining().take(n as int) + old(buf)@.skip(
                    n as int,
                )
            }),
    {
        proof {
            use_type_invariant(&*self);
        }
        let ghost buf0: Seq<u8> = buf@;
        let avail: usize = self.data.len() - self.pos;
        let n: usize = if buf.len() < avail {
            buf.len()
        } else {
            avail
        };
        let mut j: usize = 0;
        while j < n
            invariant
                j <= n,
                n <= buf@.len(),
                buf@.len() == buf0.len(),
                self.pos + n <= self.data@.len() <= usize::MAX,
                forall|k: int| 0 <= k < j ==> buf@[k] == self.data@[self.pos + k],
                forall|k: int| j <= k < buf@.len() ==> buf@[k] == buf0[k],
            decreases n - j,
        {
            let b: u8 = self.data[self.pos + j];
            buf[j] = b;
            j += 1;
        }
        proof {
            use_type_invariant(&*self);
        }
        self.pos = self.pos + n;
        proof {
            assert(self.remaining() =~= old(self).remaining().skip(n as int));
            assert(buf@ =~= old(self).remaining().take(n as int) + buf0.skip(n as int));
        }
        Ok(n)
    }
}

} // verus!
