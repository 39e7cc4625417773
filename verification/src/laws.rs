//! Properties of the protocol that span several of its steps.

use vstd::prelude::*;
use crate::blind_sig_conservative::{
    lemma_lengths_fit, BlindSignatureConservative, RegistrationJudgeOutput,
    RegistrationSenderOutput, SignatureType, UserState,
};
use crate::bytes::xor_bytes;
use crate::commitment::rain_input;
use crate::registration::{
    judge_output_from, n1_of_pi_n1, n2_of, pi_n1_of, sender_output_from, tagged_message,
    JudgeRegistrationValues, REGISTRATION_N1_TAG, REGISTRATION_N2_TAG,
};
use crate::sign::{signature_from, state_from};

verus! {

/// Every byte of `pi_n1` is the byte of `n1` at the same position xor-ed
/// with the byte of `alpha` there.
pub proof fn lemma_pi_n1_bytes(n1: Seq<u8>, alpha: Seq<u8>)
    requires
        alpha.len() >= n1.len(),
    ensures
        pi_n1_of(n1, alpha).len() == n1.len(),
        forall|i: int| 0 <= i < n1.len() ==> #[trigger] pi_n1_of(n1, alpha)[i] == alpha[i] ^ n1[i],
{
}

/// Every byte of `n2` is the byte of `n1` at the same position xor-ed with
/// the byte of `alpha` `n1.len()` places further on.
pub proof fn lemma_n2_bytes(n1: Seq<u8>, alpha: Seq<u8>)
    requires
        alpha.len() >= 2 * n1.len(),
    ensures
        n2_of(n1, alpha).len() == n1.len(),
        forall|i: int|
            0 <= i < n1.len() ==> #[trigger] n2_of(n1, alpha)[i] == alpha[n1.len() + i] ^ n1[i],
{
}

/// Every byte of the recovered `n1` is the byte of `pi_n1` at the same
/// position xor-ed with the byte of the mask there.
pub proof fn lemma_n1_of_pi_n1_bytes(pi_n1: Seq<u8>, alpha: Seq<u8>)
    requires
        alpha.len() >= pi_n1.len(),
    ensures
        n1_of_pi_n1(pi_n1, alpha).len() == pi_n1.len(),
        forall|i: int|
            0 <= i < pi_n1.len() ==> #[trigger] n1_of_pi_n1(pi_n1, alpha)[i] == alpha[i] ^ pi_n1[i],
{
}

/// A tagged message is the nonce, byte for byte, followed by one byte that
/// is `0x80` for the tag bit `true` and `0` for `false`.
pub proof fn lemma_tagged_message_bytes(nonce: Seq<u8>, tag_bit: bool)
    ensures
        tagged_message(nonce, tag_bit).len() == nonce.len() + 1,
        forall|i: int| 0 <= i < nonce.len() ==> #[trigger] tagged_message(nonce, tag_bit)[i] == nonce[i],
        tagged_message(nonce, tag_bit)[nonce.len() as int] == (if tag_bit { 0x80u8 } else { 0u8 }),
{
}

/// The RainHash block is 64 bytes: `m` in order, then `r` in order right
/// after it, then `0xff` up to the end.
pub proof fn lemma_rain_input_bytes(m: Seq<u8>, r: Seq<u8>)
    requires
        m.len() + r.len() <= 64,
    ensures
        rain_input(m, r).len() == 64,
        forall|i: int| 0 <= i < m.len() ==> #[trigger] rain_input(m, r)[i] == m[i],
        forall|j: int| 0 <= j < r.len() ==> #[trigger] rain_input(m, r)[m.len() + j] == r[j],
        forall|k: int| m.len() + r.len() <= k < 64 ==> #[trigger] rain_input(m, r)[k] == 0xffu8,
{
}

/// The sender accepts the judge's output exactly when `n1`, `alpha` and
/// `beta` have the lengths of the instance, every byte of `pi_n1` is the byte
/// of `n1` xor-ed with that of `alpha` at the same position, and both judge
/// signatures are a MAYO signature followed by a nonce and a tag byte.
pub proof fn lemma_judge_output_accepted_iff(bs: BlindSignatureConservative, o: RegistrationJudgeOutput)
    ensures
        bs.judge_output_accepted(o) <==> (
        o.n1@.len() == bs.lambda / 8
        && o.alpha@.len() == bs.lambda / 4
        && o.beta@.len() == bs.lambda / 2
        && o.pi_n1@.len() == o.n1@.len()
        && (forall|i: int| 0 <= i < o.n1@.len() ==> #[trigger] o.pi_n1@[i] == o.alpha@[i] ^ o.n1@[i])
        && o.sigj_n1@.len() == bs.mayo_params.sig_bytes + o.n1@.len() + 1
        && o.sigj_n2@.len() == bs.mayo_params.sig_bytes + o.n1@.len() + 1),
{
    lemma_lengths_fit(bs.lambda);
    if o.n1@.len() == bs.lambda / 8 && o.alpha@.len() == bs.lambda / 4 {
        lemma_pi_n1_bytes(o.n1@, o.alpha@);
        lemma_n2_bytes(o.n1@, o.alpha@);
        if o.pi_n1@.len() == o.n1@.len() && (forall|i: int|
            0 <= i < o.n1@.len() ==> #[trigger] o.pi_n1@[i] == o.alpha@[i] ^ o.n1@[i]) {
            assert(o.pi_n1@ =~= pi_n1_of(o.n1@, o.alpha@));
        }
    }
}

/// The first signing step accepts a registration exactly when `n1`,
/// `alpha` and `beta` have the lengths of the instance, `pi_n1` and `n2`
/// have the length of `n1`, and both judge signatures are a MAYO signature
/// followed by a nonce and a tag byte.
pub proof fn lemma_sender_output_accepted_iff(
    bs: BlindSignatureConservative,
    reg: RegistrationSenderOutput,
)
    ensures
        bs.sender_output_accepted(reg) <==> (
        reg.n1@.len() == bs.lambda / 8
        && reg.alpha@.len() == bs.lambda / 4
        && reg.beta@.len() == bs.lambda / 2
        && reg.pi_n1@.len() == reg.n1@.len()
        && reg.n2@.len() == reg.n1@.len()
        && reg.sigj_n1@.len() == bs.mayo_params.sig_bytes + reg.n1@.len() + 1
        && reg.sigj_n2@.len() == bs.mayo_params.sig_bytes + reg.n1@.len() + 1),
{
}

/// The third signing step accepts a state exactly when the message hash,
/// `n1`, `r`, `pi_n1` and `n2` have the nonce length, `alpha` and `beta`
/// those of the instance, and both judge signatures are a MAYO signature
/// followed by a nonce and a tag byte.
pub proof fn lemma_state_accepted_iff(bs: BlindSignatureConservative, s: UserState)
    ensures
        bs.state_accepted(s) <==> (
        s.msg_hash@.len() == bs.lambda / 8
        && s.n1@.len() == bs.lambda / 8
        && s.r@.len() == bs.lambda / 8
        && s.alpha@.len() == bs.lambda / 4
        && s.beta@.len() == bs.lambda / 2
        && s.pi_n1@.len() == s.n1@.len()
        && s.n2@.len() == s.n1@.len()
        && s.sigj_n1@.len() == bs.mayo_params.sig_bytes + s.n1@.len() + 1
        && s.sigj_n2@.len() == bs.mayo_params.sig_bytes + s.n1@.len() + 1),
{
}

/// The verifier's registration check accepts exactly when `pi_n1` and the
/// mask `beta` have the lengths of the instance, the signature carries that
/// same `pi_n1`, its `n2` has the nonce length, the judge's signature on it
/// is a MAYO signature followed by a nonce and a tag byte, and every byte of
/// `n2` is `beta[n + i] ^ (beta[i] ^ pi_n1[i])`: the judge's `n2` for the
/// `n1` that `pi_n1` masks.
pub proof fn lemma_registration_consistent_iff(
    bs: BlindSignatureConservative,
    sig: SignatureType,
    pi_n1: Seq<u8>,
    beta: Seq<u8>,
)
    ensures
        bs.registration_consistent(sig, pi_n1, beta) <==> (
        pi_n1.len() == bs.lambda / 8
        && beta.len() == bs.lambda / 4
        && sig.pi_n1@ == pi_n1
        && sig.n2@.len() == bs.lambda / 8
        && sig.sigj_n2@.len() == bs.mayo_params.sig_bytes + bs.lambda / 8 + 1
        && (forall|i: int| 0 <= i < bs.lambda / 8 ==>
            #[trigger] sig.n2@[i] == beta[bs.lambda / 8 + i] ^ (beta[i] ^ pi_n1[i]))),
{
    lemma_lengths_fit(bs.lambda);
    if pi_n1.len() == bs.lambda / 8 && beta.len() == bs.lambda / 4 {
        let n1 = n1_of_pi_n1(pi_n1, beta);
        lemma_n1_of_pi_n1_bytes(pi_n1, beta);
        lemma_n2_bytes(n1, beta);
        if sig.n2@.len() == bs.lambda / 8 && (forall|i: int| 0 <= i < bs.lambda / 8 ==>
            #[trigger] sig.n2@[i] == beta[bs.lambda / 8 + i] ^ (beta[i] ^ pi_n1[i])) {
            assert(sig.n2@ =~= n2_of(n1, beta));
        }
        if sig.n2@ == n2_of(n1, beta) {
            assert forall|i: int| 0 <= i < bs.lambda / 8 implies
                #[trigger] sig.n2@[i] == beta[bs.lambda / 8 + i] ^ (beta[i] ^ pi_n1[i]) by {
                assert(n1[i] == beta[i] ^ pi_n1[i]);
            }
        }
    }
}

/// Masking twice with the same mask gives the data back.
pub proof fn lemma_xor_twice(mask: Seq<u8>, data: Seq<u8>)
    requires
        mask.len() >= data.len(),
    ensures
        xor_bytes(mask, xor_bytes(mask, data)) == data,
{
    assert forall|i: int| 0 <= i < data.len() implies #[trigger] xor_bytes(
        mask,
        xor_bytes(mask, data),
    )[i] == data[i] by {
        let a: u8 = mask[i];
        let b: u8 = data[i];
        assert(a ^ (a ^ b) == b) by (bit_vector);
    }
    assert(xor_bytes(mask, xor_bytes(mask, data)) =~= data);
}

/// Unmasking `pi_n1` with the mask that made it gives back `n1`: the
/// verifier recovers exactly the judge's `n1`.
pub proof fn lemma_unmask_recovers_n1(n1: Seq<u8>, alpha: Seq<u8>)
    requires
        alpha.len() >= n1.len(),
    ensures
        n1_of_pi_n1(pi_n1_of(n1, alpha), alpha) == n1,
{
    lemma_xor_twice(alpha.subrange(0, n1.len() as int), n1);
}

/// Masking the `n1` recovered from `pi_n1` gives `pi_n1` back.
pub proof fn lemma_mask_recovers_pi_n1(pi_n1: Seq<u8>, alpha: Seq<u8>)
    requires
        alpha.len() >= pi_n1.len(),
    ensures
        pi_n1_of(n1_of_pi_n1(pi_n1, alpha), alpha) == pi_n1,
{
    lemma_xor_twice(alpha.subrange(0, pi_n1.len() as int), pi_n1);
}

/// A message that the judge signs for `n1` never equals one that it signs
/// for `n2`, whatever the two nonces: the tag separates the two roles.
pub proof fn lemma_tags_separate_roles(x: Seq<u8>, y: Seq<u8>)
    ensures
        tagged_message(x, REGISTRATION_N1_TAG) != tagged_message(y, REGISTRATION_N2_TAG),
{
    let mx = tagged_message(x, REGISTRATION_N1_TAG);
    let my = tagged_message(y, REGISTRATION_N2_TAG);
    if mx == my {
        assert(mx.last() == my.last());
    }
}

/// Under one tag, the signed message determines the nonce.
pub proof fn lemma_tagged_message_injective(x: Seq<u8>, y: Seq<u8>, tag_bit: bool)
    requires
        tagged_message(x, tag_bit) == tagged_message(y, tag_bit),
    ensures
        x == y,
{
    assert(x =~= tagged_message(x, tag_bit).drop_last());
    assert(y =~= tagged_message(y, tag_bit).drop_last());
}

/// The judge's output, made of values that the judge derived and signatures
/// of the lengths that MAYO gives on the two tagged messages, is accepted by
/// the sender.
pub proof fn lemma_honest_judge_output_accepted(
    bs: BlindSignatureConservative,
    v: JudgeRegistrationValues,
    o: RegistrationJudgeOutput,
    sigj_n1: Seq<u8>,
    sigj_n2: Seq<u8>,
)
    requires
        bs.judge_values_wf(v),
        sigj_n1.len() == bs.judge_sig_len(v.n1@.len()),
        sigj_n2.len() == bs.judge_sig_len(v.n2@.len()),
        judge_output_from(o, v, sigj_n1, sigj_n2),
    ensures
        bs.judge_output_accepted(o),
{
}

/// The verifier's registration check accepts a signature made from an
/// accepted state whose `pi_n1` and `n2` are the judge's, when it is given
/// the judge's `pi_n1` and `alpha`.
pub proof fn lemma_signature_passes_registration_check(
    bs: BlindSignatureConservative,
    n1: Seq<u8>,
    alpha: Seq<u8>,
    s: UserState,
    sig: SignatureType,
    proof: Seq<u8>,
)
    requires
        bs.state_accepted(s),
        s.n1@ == n1,
        s.alpha@ == alpha,
        s.pi_n1@ == pi_n1_of(n1, alpha),
        s.n2@ == n2_of(n1, alpha),
        signature_from(sig, s, proof),
    ensures
        bs.registration_consistent(sig, pi_n1_of(n1, alpha), alpha),
{
    lemma_lengths_fit(bs.lambda);
    lemma_unmask_recovers_n1(n1, alpha);
}

/// The registration check binds `n2` to `n1`: when `pi_n1` masks `n1` with
/// `alpha`, the only `n2` that the check accepts is the judge's `n2` for `n1`.
pub proof fn lemma_registration_check_binds_n2(
    bs: BlindSignatureConservative,
    n1: Seq<u8>,
    alpha: Seq<u8>,
    sig: SignatureType,
)
    requires
        alpha.len() >= n1.len(),
        bs.registration_consistent(sig, pi_n1_of(n1, alpha), alpha),
    ensures
        sig.n2@ == n2_of(n1, alpha),
{
    lemma_unmask_recovers_n1(n1, alpha);
}

/// A whole honest run passes every check on registration values: the sender
/// accepts the judge's output, the first signing step accepts the sender's
/// registration, the third accepts the user state, and the verifier's
/// registration check accepts the signature with the judge's `pi_n1` and
/// `alpha`.
pub proof fn lemma_honest_run_passes_registration_checks(
    bs: BlindSignatureConservative,
    v: JudgeRegistrationValues,
    sigj_n1: Seq<u8>,
    sigj_n2: Seq<u8>,
    o: RegistrationJudgeOutput,
    reg: RegistrationSenderOutput,
    msg_hash: Seq<u8>,
    r: Seq<u8>,
    s: UserState,
    proof: Seq<u8>,
    sig: SignatureType,
)
    requires
        bs.judge_values_wf(v),
        sigj_n1.len() == bs.judge_sig_len(v.n1@.len()),
        sigj_n2.len() == bs.judge_sig_len(v.n2@.len()),
        judge_output_from(o, v, sigj_n1, sigj_n2),
        sender_output_from(reg, o),
        msg_hash.len() == bs.nonce_len(),
        r.len() == bs.nonce_len(),
        state_from(s, reg, msg_hash, r),
        signature_from(sig, s, proof),
    ensures
        bs.judge_output_accepted(o),
        bs.sender_output_accepted(reg),
        bs.state_accepted(s),
        bs.registration_consistent(sig, o.pi_n1@, o.alpha@),
{
    lemma_lengths_fit(bs.lambda);
    lemma_signature_passes_registration_check(bs, v.n1@, v.alpha@, s, sig, proof);
}

} // verus!
