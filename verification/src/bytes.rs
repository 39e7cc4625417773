//! Byte-string helpers: masking by exclusive or, and comparison.

use vstd::prelude::*;

verus! {

/// Byte-wise exclusive or of `data` with the first `data.len()` bytes of `mask`.
pub open spec fn xor_bytes(mask: Seq<u8>, data: Seq<u8>) -> Seq<u8> {
    Seq::new(data.len(), |i: int| mask[i] ^ data[i])
}

/// Returns `data` xor-ed with `mask[offset..offset + data.len()]`.
pub fn xor_with_mask(mask: &[u8], offset: usize, data: &[u8]) -> (res: Vec<u8>)
    requires
        offset + data@.len() <= mask@.len(),
    ensures
        res@ == xor_bytes(mask@.subrange(offset as int, offset + data@.len()), data@),
        res@.len() == data@.len(),
        forall|i: int| 0 <= i < data@.len() ==> #[trigger] res@[i] == mask@[offset + i] ^ data@[i],
{
    let mask_len: usize = mask.len();
    let mut res: Vec<u8> = Vec::new();
    let mut i: usize = 0;
    while i < data.len()
        invariant
            i <= data@.len(),
            offset + data@.len() <= mask@.len(),
            mask_len == mask@.len(),
            res@.len() == i,
            forall|j: int| 0 <= j < i ==> res@[j] == mask@[offset + j] ^ data@[j],
        decreases data@.len() - i,
    {
        res.push(mask[offset + i] ^ data[i]);
        i = i + 1;
    }
    proof {
        assert(res@ =~= xor_bytes(mask@.subrange(offset as int, offset + data@.len()), data@));
    }
    res
}

/// Appends the bytes of `data` to `out`.
pub fn push_bytes(out: &mut Vec<u8>, data: &[u8])
    ensures
        final(out)@ == old(out)@ + data@,
{
    let ghost start = out@;
    let mut i: usize = 0;
    while i < data.len()
        invariant
            i <= data@.len(),
            out@ == start + data@.take(i as int),
        decreases data@.len() - i,
    {
        out.push(data[i]);
        i = i + 1;
        proof {
            assert(out@ =~= start + data@.take(i as int));
        }
    }
    proof {
        assert(data@.take(data@.len() as int) =~= data@);
    }
}

/// The concatenation `a || b`.
pub fn concat_bytes(a: &[u8], b: &[u8]) -> (res: Vec<u8>)
    ensures
        res@ == a@ + b@,
{
    let mut res: Vec<u8> = Vec::new();
    push_bytes(&mut res, a);
    push_bytes(&mut res, b);
    proof {
        assert(Seq::<u8>::empty() + a@ =~= a@);
    }
    res
}

/// Whether two byte strings are equal.
pub fn bytes_equal(a: &[u8], b: &[u8]) -> (res: bool)
    ensures
        res == (a@ == b@),
{
    if a.len() != b.len() {
        return false;
    }
    let mut i: usize = 0;
    while i < a.len()
        invariant
            a@.len() == b@.len(),
            i <= a@.len(),
            forall|j: int| 0 <= j < i ==> a@[j] == b@[j],
        decreases a@.len() - i,
    {
        if a[i] != b[i] {
            return false;
        }
        i = i + 1;
    }
    proof {
        assert(a@ =~= b@);
    }
    true
}

} // verus!
