//! Framing of the input of the RainHash commitment.

use vstd::prelude::*;
use crate::bytes::push_bytes;
use crate::laws::lemma_rain_input_bytes;

verus! {

/// Length in bytes of a RainHash input block.
pub const RAIN_INPUT_BYTES: usize = 64;

/// The byte that fills a RainHash input block after `m || r`.
pub const RAIN_PAD_BYTE: u8 = 0xff;

/// The block that the commitment hashes: `m || r`, filled up to 64 bytes
/// with `0xff`.
pub open spec fn rain_input(m: Seq<u8>, r: Seq<u8>) -> Seq<u8> {
    m + r + Seq::new((64 - (m.len() + r.len())) as nat, |i: int| 0xffu8)
}

/// Builds the RainHash input block of the commitment to `m` with randomness
/// `r`: the two are concatenated and padded with `0xff` to 64 bytes.
pub fn rain_commitment_input(m: &[u8], r: &[u8]) -> (input: Vec<u8>)
    requires
        m@.len() + r@.len() <= 64,
    ensures
        input@ == rain_input(m@, r@),
        input@.len() == 64,
        forall|i: int| 0 <= i < m@.len() ==> #[trigger] input@[i] == m@[i],
        forall|j: int| 0 <= j < r@.len() ==> #[trigger] input@[m@.len() + j] == r@[j],
        forall|k: int| m@.len() + r@.len() <= k < 64 ==> #[trigger] input@[k] == 0xffu8,
{
    proof {
        lemma_rain_input_bytes(m@, r@);
    }
    let mut input: Vec<u8> = Vec::new();
    push_bytes(&mut input, m);
    push_bytes(&mut input, r);
    let ghost prefix = input@;
    while input.len() < RAIN_INPUT_BYTES
        invariant
            prefix == Seq::<u8>::empty() + m@ + r@,
            prefix.len() <= input@.len() <= 64,
            input@ == prefix + Seq::new((input@.len() - prefix.len()) as nat, |i: int| 0xffu8),
        decreases 64 - input@.len(),
    {
        input.push(RAIN_PAD_BYTE);
        proof {
            assert(input@ =~= prefix + Seq::new((input@.len() - prefix.len()) as nat, |i: int| 0xffu8));
        }
    }
    proof {
        assert(Seq::<u8>::empty() + m@ =~= m@);
        assert(input@ =~= rain_input(m@, r@));
    }
    input
}

} // verus!
