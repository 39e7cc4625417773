//! Registration: the judge issues a masked nonce `n1` and a second nonce
//! `n2`, each signed under a one-bit tag; the sender checks and stores them.

use vstd::prelude::*;
use crate::blind_sig_conservative::{
    lemma_lengths_fit, BlindSignatureConservative, RegistrationJudgeOutput, RegistrationSenderOutput,
};
use crate::bytes::{bytes_equal, push_bytes, xor_bytes, xor_with_mask};
use crate::laws::{
    lemma_judge_output_accepted_iff, lemma_n1_of_pi_n1_bytes, lemma_n2_bytes, lemma_pi_n1_bytes,
    lemma_tagged_message_bytes,
};
use crate::randomness::random_bytes;

verus! {

/// Tag bit under which the judge signs `n1`.
pub const REGISTRATION_N1_TAG: bool = false;
/// Tag bit under which the judge signs `n2`.
pub const REGISTRATION_N2_TAG: bool = true;

/// The byte that carries a tag bit: the bit is the most significant bit and
/// the other seven bits are zero.
pub open spec fn tag_byte(tag_bit: bool) -> u8 {
    if tag_bit { 0x80u8 } else { 0u8 }
}

/// The message that the judge signs for `nonce` under `tag_bit`.
pub open spec fn tagged_message(nonce: Seq<u8>, tag_bit: bool) -> Seq<u8> {
    nonce.push(tag_byte(tag_bit))
}

/// `pi_n1`: `n1` masked with the first `n1.len()` bytes of `alpha`.
pub open spec fn pi_n1_of(n1: Seq<u8>, alpha: Seq<u8>) -> Seq<u8> {
    xor_bytes(alpha.subrange(0, n1.len() as int), n1)
}

/// `n2`: `n1` masked with the next `n1.len()` bytes of `alpha`.
pub open spec fn n2_of(n1: Seq<u8>, alpha: Seq<u8>) -> Seq<u8> {
    xor_bytes(alpha.subrange(n1.len() as int, 2 * n1.len() as int), n1)
}

/// `n1` recovered from `pi_n1` and the mask it was made with.
pub open spec fn n1_of_pi_n1(pi_n1: Seq<u8>, alpha: Seq<u8>) -> Seq<u8> {
    xor_bytes(alpha.subrange(0, pi_n1.len() as int), pi_n1)
}

/// Appends the tag byte of `tag_bit` to `nonce`.
///
/// MAYO signs byte strings, so the tag bit is packed as the most significant
/// bit of one extra byte whose other bits are zero.
pub fn tagged_registration_message(nonce: &[u8], tag_bit: bool) -> (res: Vec<u8>)
    ensures
        res@ == tagged_message(nonce@, tag_bit),
        res@.len() == nonce@.len() + 1,
        forall|i: int| 0 <= i < nonce@.len() ==> #[trigger] res@[i] == nonce@[i],
        res@[nonce@.len() as int] == (if tag_bit { 0x80u8 } else { 0u8 }),
{
    proof {
        lemma_tagged_message_bytes(nonce@, tag_bit);
    }
    let mut message: Vec<u8> = Vec::new();
    push_bytes(&mut message, nonce);
    proof {
        assert(Seq::<u8>::empty() + nonce@ =~= nonce@);
    }
    message.push(if tag_bit { 0x80u8 } else { 0u8 });
    message
}

/// Masks `n1` with the first half of `alpha`.
pub fn compute_pi_n1(n1: &[u8], alpha: &[u8]) -> (res: Vec<u8>)
    requires
        alpha@.len() >= n1@.len(),
    ensures
        res@ == pi_n1_of(n1@, alpha@),
        res@.len() == n1@.len(),
        forall|i: int| 0 <= i < n1@.len() ==> #[trigger] res@[i] == alpha@[i] ^ n1@[i],
{
    proof {
        lemma_pi_n1_bytes(n1@, alpha@);
    }
    xor_with_mask(alpha, 0, n1)
}

/// Derives `n2` by masking `n1` with the second half of `alpha`.
pub fn compute_n2(n1: &[u8], alpha: &[u8]) -> (res: Vec<u8>)
    requires
        alpha@.len() >= 2 * n1@.len(),
    ensures
        res@ == n2_of(n1@, alpha@),
        res@.len() == n1@.len(),
        forall|i: int| 0 <= i < n1@.len() ==> #[trigger] res@[i] == alpha@[n1@.len() + i] ^ n1@[i],
{
    proof {
        lemma_n2_bytes(n1@, alpha@);
    }
    xor_with_mask(alpha, n1.len(), n1)
}

/// Recovers `n1` from `pi_n1` and the mask `beta` it was made with.
pub fn compute_n1_from_pi_n1(pi_n1: &[u8], beta: &[u8]) -> (res: Vec<u8>)
    requires
        beta@.len() >= pi_n1@.len(),
    ensures
        res@ == n1_of_pi_n1(pi_n1@, beta@),
        res@.len() == pi_n1@.len(),
        forall|i: int| 0 <= i < pi_n1@.len() ==> #[trigger] res@[i] == beta@[i] ^ pi_n1@[i],
{
    proof {
        lemma_n1_of_pi_n1_bytes(pi_n1@, beta@);
    }
    xor_with_mask(beta, 0, pi_n1)
}

/// The values that the judge computes before it signs: the sampled `n1`,
/// `alpha` and `beta`, the derived `pi_n1` and `n2`, and the two tagged
/// messages that it signs.
#[derive(Clone, Debug, PartialEq, Eq)]
pub struct JudgeRegistrationValues {
    pub n1: Vec<u8>,
    pub alpha: Vec<u8>,
    pub beta: Vec<u8>,
    pub pi_n1: Vec<u8>,
    pub n2: Vec<u8>,
    pub n1_message: Vec<u8>,
    pub n2_message: Vec<u8>,
}

/// Whether `v` holds exactly what the judge derives from `n1`, `alpha` and `beta`.
pub open spec fn judge_values_derived(
    v: JudgeRegistrationValues,
    n1: Seq<u8>,
    alpha: Seq<u8>,
    beta: Seq<u8>,
) -> bool {
    &&& v.n1@ == n1
    &&& v.alpha@ == alpha
    &&& v.beta@ == beta
    &&& v.pi_n1@ == pi_n1_of(n1, alpha)
    &&& v.n2@ == n2_of(n1, alpha)
    &&& v.n1_message@ == tagged_message(n1, REGISTRATION_N1_TAG)
    &&& v.n2_message@ == tagged_message(n2_of(n1, alpha), REGISTRATION_N2_TAG)
}

/// Derives the judge's registration values from sampled `n1`, `alpha` and
/// `beta`: `pi_n1` masks `n1` with the first half of `alpha`, `n2` masks it
/// with the second half, and the messages to sign are `n1 || 0` and `n2 || 1`.
pub fn judge_registration_values(n1: Vec<u8>, alpha: Vec<u8>, beta: Vec<u8>) -> (v:
    JudgeRegistrationValues)
    requires
        alpha@.len() >= 2 * n1@.len(),
    ensures
        judge_values_derived(v, n1@, alpha@, beta@),
        v.n1@ == n1@,
        v.alpha@ == alpha@,
        v.beta@ == beta@,
        v.pi_n1@.len() == n1@.len(),
        forall|i: int| 0 <= i < n1@.len() ==> #[trigger] v.pi_n1@[i] == alpha@[i] ^ n1@[i],
        v.n2@.len() == n1@.len(),
        forall|i: int| 0 <= i < n1@.len() ==> #[trigger] v.n2@[i] == alpha@[n1@.len() + i] ^ n1@[i],
        v.n1_message@ == n1@.push(0u8),
        v.n2_message@ == v.n2@.push(0x80u8),
{
    let pi_n1 = compute_pi_n1(&n1, &alpha);
    let n2 = compute_n2(&n1, &alpha);
    let n1_message = tagged_registration_message(&n1, REGISTRATION_N1_TAG);
    let n2_message = tagged_registration_message(&n2, REGISTRATION_N2_TAG);
    JudgeRegistrationValues { n1, alpha, beta, pi_n1, n2, n1_message, n2_message }
}

/// Whether `o` is the judge's output made of the values `v` and the judge's
/// signatures `sigj_n1` on `n1 || 0` and `sigj_n2` on `n2 || 1`.
pub open spec fn judge_output_from(
    o: RegistrationJudgeOutput,
    v: JudgeRegistrationValues,
    sigj_n1: Seq<u8>,
    sigj_n2: Seq<u8>,
) -> bool {
    &&& o.n1@ == v.n1@
    &&& o.sigj_n1@ == sigj_n1
    &&& o.pi_n1@ == v.pi_n1@
    &&& o.alpha@ == v.alpha@
    &&& o.beta@ == v.beta@
    &&& o.sigj_n2@ == sigj_n2
}

/// The judge's output once it has signed the two tagged messages.
pub fn reg_judge_finish(values: JudgeRegistrationValues, sigj_n1: Vec<u8>, sigj_n2: Vec<u8>) -> (out:
    RegistrationJudgeOutput)
    ensures
        judge_output_from(out, values, sigj_n1@, sigj_n2@),
        out.n1@ == values.n1@,
        out.sigj_n1@ == sigj_n1@,
        out.pi_n1@ == values.pi_n1@,
        out.alpha@ == values.alpha@,
        out.beta@ == values.beta@,
        out.sigj_n2@ == sigj_n2@,
{
    RegistrationJudgeOutput {
        n1: values.n1,
        sigj_n1,
        pi_n1: values.pi_n1,
        alpha: values.alpha,
        beta: values.beta,
        sigj_n2,
    }
}

/// Whether `out` keeps the judge's output `o` and holds the `n2` derived
/// from its `n1` and the second half of its `alpha`.
pub open spec fn sender_output_from(out: RegistrationSenderOutput, o: RegistrationJudgeOutput) -> bool {
    &&& out.n1@ == o.n1@
    &&& out.sigj_n1@ == o.sigj_n1@
    &&& out.pi_n1@ == o.pi_n1@
    &&& out.alpha@ == o.alpha@
    &&& out.beta@ == o.beta@
    &&& out.sigj_n2@ == o.sigj_n2@
    &&& out.n2@ == n2_of(o.n1@, o.alpha@)
}

impl BlindSignatureConservative {
    /// Whether `v` holds values of the lengths this instance samples, with
    /// everything else derived from them.
    pub open spec fn judge_values_wf(self, v: JudgeRegistrationValues) -> bool {
        &&& v.n1@.len() == self.nonce_len()
        &&& v.alpha@.len() == self.alpha_len()
        &&& v.beta@.len() == self.beta_len()
        &&& judge_values_derived(v, v.n1@, v.alpha@, v.beta@)
    }

    /// The judge's side of registration up to signing: samples fresh `n1`,
    /// `alpha` and `beta` of `lambda / 8`, `lambda / 4` and `lambda / 2`
    /// bytes, and derives `pi_n1`, `n2` and the two tagged messages to sign.
    pub fn reg_judge_prepare(&self) -> (v: JudgeRegistrationValues)
        ensures
            self.judge_values_wf(v),
            v.n1@.len() == self.lambda / 8,
            v.alpha@.len() == self.lambda / 4,
            v.beta@.len() == self.lambda / 2,
            forall|i: int| 0 <= i < v.n1@.len() ==> #[trigger] v.pi_n1@[i] == v.alpha@[i] ^ v.n1@[i],
            v.pi_n1@.len() == v.n1@.len(),
            v.n2@.len() == v.n1@.len(),
            forall|i: int|
                0 <= i < v.n1@.len() ==> #[trigger] v.n2@[i] == v.alpha@[v.n1@.len() + i] ^ v.n1@[i],
            v.n1_message@ == v.n1@.push(0u8),
            v.n2_message@ == v.n2@.push(0x80u8),
    {
        let n1 = random_bytes(self.lambda / 8);
        let alpha = random_bytes(self.lambda / 4);
        let beta = random_bytes(self.lambda / 2);
        proof {
            lemma_lengths_fit(self.lambda);
        }
        judge_registration_values(n1, alpha, beta)
    }

    /// Whether `sig_len` is the length of a judge signature on a tagged
    /// message over a nonce of `nonce_len` bytes.
    pub fn is_judge_sig_len(&self, sig_len: usize, nonce_len: usize) -> (res: bool)
        ensures
            res == (sig_len == self.judge_sig_len(nonce_len as nat)),
            res == (sig_len == self.mayo_params.sig_bytes + nonce_len + 1),
    {
        sig_len >= 1 && sig_len - 1 >= nonce_len && sig_len - 1 - nonce_len
            == self.mayo_params.sig_bytes
    }

    /// What the sender demands of the judge's output before it registers.
    pub open spec fn judge_output_accepted(self, o: RegistrationJudgeOutput) -> bool {
        &&& o.n1@.len() == self.nonce_len()
        &&& o.alpha@.len() == self.alpha_len()
        &&& o.beta@.len() == self.beta_len()
        &&& o.pi_n1@.len() == o.n1@.len()
        &&& o.pi_n1@ == pi_n1_of(o.n1@, o.alpha@)
        &&& o.sigj_n1@.len() == self.judge_sig_len(o.n1@.len())
        &&& o.sigj_n2@.len() == self.judge_sig_len(n2_of(o.n1@, o.alpha@).len())
    }

    /// Decides `judge_output_accepted`: the checks that the sender runs on
    /// the judge's output before `reg_sender` may be called.
    pub fn accepts_judge_output(&self, o: &RegistrationJudgeOutput) -> (res: bool)
        ensures
            res == self.judge_output_accepted(*o),
            res == (o.n1@.len() == self.lambda / 8
                && o.alpha@.len() == self.lambda / 4
                && o.beta@.len() == self.lambda / 2
                && o.pi_n1@.len() == o.n1@.len()
                && (forall|i: int|
                    0 <= i < o.n1@.len() ==> #[trigger] o.pi_n1@[i] == o.alpha@[i] ^ o.n1@[i])
                && o.sigj_n1@.len() == self.mayo_params.sig_bytes + o.n1@.len() + 1
                && o.sigj_n2@.len() == self.mayo_params.sig_bytes + o.n1@.len() + 1),
    {
        proof {
            lemma_judge_output_accepted_iff(*self, *o);
        }
        if o.n1.len() != self.lambda / 8 || o.alpha.len() != self.lambda / 4 || o.beta.len()
            != self.lambda / 2 || o.pi_n1.len() != o.n1.len() {
            return false;
        }
        proof {
            lemma_lengths_fit(self.lambda);
        }
        let expected_pi_n1 = compute_pi_n1(&o.n1, &o.alpha);
        if !bytes_equal(&o.pi_n1, &expected_pi_n1) {
            return false;
        }
        self.is_judge_sig_len(o.sigj_n1.len(), o.n1.len()) && self.is_judge_sig_len(
            o.sigj_n2.len(),
            o.n1.len(),
        )
    }

    /// The sender's side of registration: keeps the judge's values and
    /// derives `n2` from `n1` and the second half of `alpha`.
    pub fn reg_sender(&self, judge_output: &RegistrationJudgeOutput) -> (out:
        RegistrationSenderOutput)
        requires
            self.judge_output_accepted(*judge_output),
        ensures
            sender_output_from(out, *judge_output),
            self.sender_output_accepted(out),
            out.n1@ == judge_output.n1@,
            out.sigj_n1@ == judge_output.sigj_n1@,
            out.pi_n1@ == judge_output.pi_n1@,
            out.alpha@ == judge_output.alpha@,
            out.beta@ == judge_output.beta@,
            out.sigj_n2@ == judge_output.sigj_n2@,
            out.n2@.len() == judge_output.n1@.len(),
            forall|i: int|
                0 <= i < judge_output.n1@.len() ==> #[trigger] out.n2@[i]
                    == judge_output.alpha@[judge_output.n1@.len() + i] ^ judge_output.n1@[i],
    {
        proof {
            lemma_lengths_fit(self.lambda);
        }
        let n2 = compute_n2(&judge_output.n1, &judge_output.alpha);
        RegistrationSenderOutput {
            n1: vstd::slice::slice_to_vec(judge_output.n1.as_slice()),
            sigj_n1: vstd::slice::slice_to_vec(judge_output.sigj_n1.as_slice()),
            pi_n1: vstd::slice::slice_to_vec(judge_output.pi_n1.as_slice()),
            alpha: vstd::slice::slice_to_vec(judge_output.alpha.as_slice()),
            beta: vstd::slice::slice_to_vec(judge_output.beta.as_slice()),
            sigj_n2: vstd::slice::slice_to_vec(judge_output.sigj_n2.as_slice()),
            n2,
        }
    }
}

} // verus!
