//! The running CRC-32 accumulator.

use vstd::prelude::*;

verus! {

/// The CRC-32 (the IEEE variant used by zlib and gzip) of a byte sequence.
///
/// The checksum is computed by the `crc32fast` crate; this name stands for
/// its result, which depends on the bytes alone.
pub uninterp spec fn crc32_of(data: Seq<u8>) -> u32;

/// The value an accumulator reports after being fed `data`: a fresh
/// accumulator reports 0, and once bytes have been fed it reports the
/// CRC-32 of everything fed so far.  (The CRC-32 of no bytes at all is 0
/// too, so the two arms agree; the split only lets the fresh value be
/// stated directly.)
pub open spec fn running_crc(data: Seq<u8>) -> u32 {
    if data.len() == 0 {
        0
    } else {
        crc32_of(data)
    }
}

/// Relies on `crc32fast::Hasher` (`new_with_initial`, `update`, `finalize`):
/// hashing bytes from the zero seed yields their CRC-32; seeding with a
/// previously returned CRC-32 value and hashing further bytes yields the
/// CRC-32 of the whole stream; hashing no bytes returns the seed; and the
/// result depends on the seed and the bytes alone.
#[verifier::external_body]
fn crc32_extend(running: u32, bytes: &[u8]) -> (r: u32)
    ensures
        bytes@.len() == 0 ==> r == running,
        running == 0 ==> r == crc32_of(bytes@),
        forall|prefix: Seq<u8>|
            crc32_of(prefix) == running ==> r == #[trigger] crc32_of(prefix + bytes@),
{
    let mut hasher = crc32fast::Hasher::new_with_initial(running);
    hasher.update(bytes);
    hasher.finalize()
}

/// A running CRC-32 accumulator: the current checksum together with a count
/// of every byte ever fed in.  Its view is the sequence of all bytes fed so
/// far, in order.
pub struct Crc {
    crc: u32,
    amt: u32,
    fed: Ghost<Seq<u8>>,
}

impl View for Crc {
    type V = Seq<u8>;

    closed spec fn view(&self) -> Seq<u8> {
        self.fed@
    }
}

impl Crc {
    #[verifier::type_invariant]
    spec fn inv(self) -> bool {
        &&& self.amt == self.fed@.len()
        &&& self.crc == running_crc(self.fed@)
    }

    /// A fresh accumulator: no bytes fed, checksum 0, count 0.
    pub fn new() -> (r: Crc)
        ensures
            r@ == Seq::<u8>::empty(),
    {
        Crc { crc: 0, amt: 0, fed: Ghost(Seq::empty()) }
    }

    /// The checksum of everything fed so far.
    pub fn sum(&self) -> (r: u32)
        ensures
            r == running_crc(self@),
    {
        proof {
            use_type_invariant(self);
        }
        self.crc
    }

    /// How many bytes have been fed so far.
    pub fn amt(&self) -> (r: u32)
        ensures
            r == self@.len(),
    {
        proof {
            use_type_invariant(self);
        }
        self.amt
    }

    /// Feed `bytes` into the running checksum and count them, exactly once
    /// each: afterwards the accumulator has seen everything it had seen
    /// before, followed by `bytes`.
    pub fn update(&mut self, bytes: &[u8])
        requires
            old(self)@.len() + bytes@.len() <= u32::MAX,
        ensures
            final(self)@ == old(self)@ + bytes@,
    {
        proof {
            use_type_invariant(&*self);
        }
        let new_crc = crc32_extend(self.crc, bytes);
        let new_amt: u32 = self.amt + (bytes.len() as u32);
        proof {
            let fed = self.fed@;
            if bytes@.len() == 0 {
                assert(fed + bytes@ =~= fed);
            } else if fed.len() == 0 {
                assert(fed + bytes@ =~= bytes@);
            } else {
                assert(new_crc == crc32_of(fed + bytes@));
            }
        }
        *self = Crc { crc: new_crc, amt: new_amt, fed: Ghost(self.fed@ + bytes@) };
    }
}

/// Law: accumulation is additive.  Feeding `s1` and then `s2` leaves an
/// accumulator with the same bytes — and so, by the contracts of `sum` and
/// `amt`, the same checksum and the same count — as feeding the single
/// concatenated slice `s1 + s2`, whatever was fed before.  Hence any split
/// of an input into chunks yields the checksum of the whole input.
pub proof fn lemma_update_additive(fed: Seq<u8>, s1: Seq<u8>, s2: Seq<u8>)
    ensures
        (fed + s1) + s2 == fed + (s1 + s2),
{
    assert((fed + s1) + s2 =~= fed + (s1 + s2));
}

/// Law: feeding an empty slice is a no-op.  The bytes an accumulator has
/// seen are exactly as before, so everything it reports of them — the
/// checksum `sum()` returns and the count `amt()` returns — is unchanged.
pub proof fn lemma_update_empty_no_op(fed: Seq<u8>, chunk: Seq<u8>)
    requires
        chunk.len() == 0,
    ensures
        fed + chunk == fed,
        running_crc(fed + chunk) == running_crc(fed),
        (fed + chunk).len() == fed.len(),
{
    assert(fed + chunk =~= fed);
}

} // verus!
