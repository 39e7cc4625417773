//! Verification: the registration values that a signature carries are
//! checked against `pi_n1` and the registration mask before the judge's
//! signature on `n2` and the proof are checked.

use vstd::prelude::*;
use crate::blind_sig_conservative::{lemma_lengths_fit, BlindSignatureConservative, SignatureType};
use crate::bytes::bytes_equal;
use crate::laws::lemma_registration_consistent_iff;
use crate::registration::{compute_n1_from_pi_n1, compute_n2, n1_of_pi_n1, n2_of};

verus! {

impl BlindSignatureConservative {
    /// Whether the registration values of `sig` fit `pi_n1` and the mask
    /// `beta` (the registration value equal to `alpha`): the lengths are
    /// those of the instance, `sig` carries the same `pi_n1`, the judge's
    /// signature on `n2` has the length of a signature on a tagged nonce, and
    /// `n2` is the nonce derived from the `n1` that `pi_n1` masks.
    pub open spec fn registration_consistent(
        self,
        sig: SignatureType,
        pi_n1: Seq<u8>,
        beta: Seq<u8>,
    ) -> bool {
        &&& pi_n1.len() == self.nonce_len()
        &&& beta.len() == self.alpha_len()
        &&& sig.pi_n1@ == pi_n1
        &&& sig.n2@.len() == self.nonce_len()
        &&& sig.sigj_n2@.len() == self.judge_sig_len(sig.n2@.len())
        &&& sig.n2@ == n2_of(n1_of_pi_n1(pi_n1, beta), beta)
    }

    /// The registration checks that verification runs first; verification
    /// rejects where this returns `false`.
    pub fn verify_registration_values(
        &self,
        sig: &SignatureType,
        pi_n1: &[u8],
        beta: &[u8],
    ) -> (res: bool)
        ensures
            res == self.registration_consistent(*sig, pi_n1@, beta@),
            res ==> sig.pi_n1@ == pi_n1@,
            res == (pi_n1@.len() == self.lambda / 8
                && beta@.len() == self.lambda / 4
                && sig.pi_n1@ == pi_n1@
                && sig.n2@.len() == self.lambda / 8
                && sig.sigj_n2@.len() == self.mayo_params.sig_bytes + self.lambda / 8 + 1
                && (forall|i: int| 0 <= i < self.lambda / 8 ==>
                    #[trigger] sig.n2@[i] == beta@[self.lambda / 8 + i] ^ (beta@[i] ^ pi_n1@[i]))),
    {
        proof {
            lemma_registration_consistent_iff(*self, *sig, pi_n1@, beta@);
        }
        if pi_n1.len() != self.lambda / 8 || beta.len() != self.lambda / 4 {
            return false;
        }
        if !bytes_equal(sig.pi_n1.as_slice(), pi_n1) || sig.n2.len() != self.lambda / 8 {
            return false;
        }
        if !self.is_judge_sig_len(sig.sigj_n2.len(), sig.n2.len()) {
            return false;
        }
        proof {
            lemma_lengths_fit(self.lambda);
        }
        let reconstructed_n1 = compute_n1_from_pi_n1(pi_n1, beta);
        let expected_n2 = compute_n2(&reconstructed_n1, beta);
        bytes_equal(sig.n2.as_slice(), expected_n2.as_slice())
    }
}

} // verus!
