//! Byte-sequence helpers shared by the encoding and validation modules.

use vstd::prelude::*;

verus! {

/// The 8-byte big-endian encoding of a 64-bit value.
pub open spec fn be_bytes8(n: u64) -> Seq<u8> {
    Seq::new(8, |i: int| ((n >> (((7 - i) * 8) as u64)) & 0xff) as u8)
}

/// A sequence of `n` zero bytes.
pub open spec fn zero_bytes(n: nat) -> Seq<u8> {
    Seq::new(n, |i: int| 0u8)
}

/// Appends `src` to `dst`.
pub fn append_bytes(dst: &mut Vec<u8>, src: &[u8])
    ensures
        final(dst)@ == old(dst)@ + src@,
{
    dst.extend_from_slice(src);
    proof {
        assert(dst@ =~= old(dst)@ + src@);
    }
}

/// Appends `n` zero bytes to `dst`.
pub fn append_zero_bytes(dst: &mut Vec<u8>, n: usize)
    ensures
        final(dst)@ == old(dst)@ + zero_bytes(n as nat),
{
    let mut i: usize = 0;
    while i < n
        invariant
            i <= n,
            dst@ == old(dst)@ + zero_bytes(i as nat),
        decreases n - i,
    {
        dst.push(0u8);
        proof {
            assert(dst@ =~= old(dst)@ + zero_bytes((i + 1) as nat));
        }
        i = i + 1;
    }
}

/// Appends the 8-byte big-endian encoding of `n` to `dst`.
pub fn append_be_bytes8(dst: &mut Vec<u8>, n: u64)
    ensures
        final(dst)@ == old(dst)@ + be_bytes8(n),
{
    let mut i: usize = 0;
    while i < 8
        invariant
            i <= 8,
            dst@ == old(dst)@ + be_bytes8(n).take(i as int),
        decreases 8 - i,
    {
        let shift: u64 = (7 - i as u64) * 8;
        let b: u8 = ((n >> shift) & 0xff) as u8;
        proof {
            assert(shift == ((7 - i as int) * 8) as u64);
            assert(b == be_bytes8(n)[i as int]);
        }
        dst.push(b);
        proof {
            assert(dst@ =~= old(dst)@ + be_bytes8(n).take(i + 1));
        }
        i = i + 1;
    }
    proof {
        assert(be_bytes8(n).take(8) =~= be_bytes8(n));
    }
}

/// Tests two byte slices for equality of their contents.
pub fn bytes_eq(a: &[u8], b: &[u8]) -> (r: bool)
    ensures
        r == (a@ == b@),
{
    if a.len() != b.len() {
        proof {
            assert(a@ != b@);
        }
        return false;
    }
    let n = a.len();
    let mut i: usize = 0;
    while i < n
        invariant
            i <= n,
            a@.len() == n,
            b@.len() == n,
            forall|j: int| 0 <= j < i ==> a@[j] == b@[j],
        decreases n - i,
    {
        if a[i] != b[i] {
            proof {
                assert(a@ != b@);
            }
            return false;
        }
        i = i + 1;
    }
    proof {
        assert(a@ =~= b@);
    }
    true
}

/// Concatenations of equal length split equally: where two concatenations
/// agree and their left parts have one length, both parts agree.
pub proof fn lemma_concat_cancel(a1: Seq<u8>, b1: Seq<u8>, a2: Seq<u8>, b2: Seq<u8>)
    requires
        a1.len() == a2.len(),
        a1 + b1 == a2 + b2,
    ensures
        a1 == a2,
        b1 == b2,
{
    assert(a1 =~= (a1 + b1).take(a1.len() as int));
    assert(a2 =~= (a2 + b2).take(a2.len() as int));
    assert(b1 =~= (a1 + b1).skip(a1.len() as int));
    assert(b2 =~= (a2 + b2).skip(a2.len() as int));
}

} // verus!
