//! Signing: the user commits to the hashed message, the signer signs the
//! commitment, and the user turns the signature into a proof.

use vstd::prelude::*;
use crate::blind_sig_conservative::{
    BlindSignatureConservative, RegistrationSenderOutput, SignatureType, UserState,
};
use crate::bytes::concat_bytes;
use crate::laws::{lemma_sender_output_accepted_iff, lemma_state_accepted_iff};
use crate::randomness::random_bytes;

verus! {

/// Whether `s` is the user state made of the registration `reg`, the
/// message hash and the commitment randomness `r`.
pub open spec fn state_from(
    s: UserState,
    reg: RegistrationSenderOutput,
    msg_hash: Seq<u8>,
    r: Seq<u8>,
) -> bool {
    &&& s.msg_hash@ == msg_hash
    &&& s.n1@ == reg.n1@
    &&& s.r@ == r
    &&& s.alpha@ == reg.alpha@
    &&& s.beta@ == reg.beta@
    &&& s.sigj_n1@ == reg.sigj_n1@
    &&& s.sigj_n2@ == reg.sigj_n2@
    &&& s.pi_n1@ == reg.pi_n1@
    &&& s.n2@ == reg.n2@
}

/// Whether `sig` carries the registration values of the state `s` and the
/// proof bytes `proof`.
pub open spec fn signature_from(sig: SignatureType, s: UserState, proof: Seq<u8>) -> bool {
    &&& sig.n2@ == s.n2@
    &&& sig.sigj_n2@ == s.sigj_n2@
    &&& sig.proof@ == proof
    &&& sig.pi_n1@ == s.pi_n1@
}

impl BlindSignatureConservative {
    /// What the first signing step demands of the sender's registration.
    pub open spec fn sender_output_accepted(self, reg: RegistrationSenderOutput) -> bool {
        &&& reg.n1@.len() == self.nonce_len()
        &&& reg.alpha@.len() == self.alpha_len()
        &&& reg.beta@.len() == self.beta_len()
        &&& reg.pi_n1@.len() == reg.n1@.len()
        &&& reg.n2@.len() == reg.n1@.len()
        &&& reg.sigj_n1@.len() == self.judge_sig_len(reg.n1@.len())
        &&& reg.sigj_n2@.len() == self.judge_sig_len(reg.n2@.len())
    }

    /// Decides `sender_output_accepted`: the checks that the first signing
    /// step runs on the registration before anything else.
    pub fn accepts_sender_output(&self, reg: &RegistrationSenderOutput) -> (res: bool)
        ensures
            res == self.sender_output_accepted(*reg),
            res == (reg.n1@.len() == self.lambda / 8
                && reg.alpha@.len() == self.lambda / 4
                && reg.beta@.len() == self.lambda / 2
                && reg.pi_n1@.len() == reg.n1@.len()
                && reg.n2@.len() == reg.n1@.len()
                && reg.sigj_n1@.len() == self.mayo_params.sig_bytes + reg.n1@.len() + 1
                && reg.sigj_n2@.len() == self.mayo_params.sig_bytes + reg.n1@.len() + 1),
    {
        proof {
            lemma_sender_output_accepted_iff(*self, *reg);
        }
        reg.n1.len() == self.lambda / 8 && reg.alpha.len() == self.lambda / 4 && reg.beta.len()
            == self.lambda / 2 && reg.pi_n1.len() == reg.n1.len() && reg.n2.len() == reg.n1.len()
            && self.is_judge_sig_len(reg.sigj_n1.len(), reg.n1.len()) && self.is_judge_sig_len(
            reg.sigj_n2.len(),
            reg.n2.len(),
        )
    }

    /// The commitment randomness of the first signing step: `lambda / 8`
    /// fresh random bytes.
    pub fn sign_1_randomness(&self) -> (r: Vec<u8>)
        ensures
            r@.len() == self.nonce_len(),
    {
        random_bytes(self.lambda / 8)
    }

    /// Ends the first signing step: given the registration, the hash of the
    /// message, the commitment randomness and the commitment (the blinded
    /// message), returns the blinded message and the user state. The state
    /// passes the checks of the third step exactly when the registration
    /// passed those of the first and the hash and randomness have the nonce
    /// length.
    pub fn sign_1_finish(
        &self,
        registration: &RegistrationSenderOutput,
        msg_hash: Vec<u8>,
        r: Vec<u8>,
        com: Vec<u8>,
    ) -> (res: (Vec<u8>, UserState))
        ensures
            res.0@ == com@,
            state_from(res.1, *registration, msg_hash@, r@),
            res.1.msg_hash@ == msg_hash@,
            res.1.n1@ == registration.n1@,
            res.1.r@ == r@,
            res.1.alpha@ == registration.alpha@,
            res.1.beta@ == registration.beta@,
            res.1.sigj_n1@ == registration.sigj_n1@,
            res.1.sigj_n2@ == registration.sigj_n2@,
            res.1.pi_n1@ == registration.pi_n1@,
            res.1.n2@ == registration.n2@,
            self.state_accepted(res.1) <==> (self.sender_output_accepted(*registration)
                && msg_hash@.len() == self.nonce_len() && r@.len() == self.nonce_len()),
    {
        let state = UserState {
            msg_hash,
            n1: vstd::slice::slice_to_vec(registration.n1.as_slice()),
            r,
            alpha: vstd::slice::slice_to_vec(registration.alpha.as_slice()),
            beta: vstd::slice::slice_to_vec(registration.beta.as_slice()),
            sigj_n1: vstd::slice::slice_to_vec(registration.sigj_n1.as_slice()),
            sigj_n2: vstd::slice::slice_to_vec(registration.sigj_n2.as_slice()),
            pi_n1: vstd::slice::slice_to_vec(registration.pi_n1.as_slice()),
            n2: vstd::slice::slice_to_vec(registration.n2.as_slice()),
        };
        (com, state)
    }

    /// What the third signing step demands of the user state.
    pub open spec fn state_accepted(self, s: UserState) -> bool {
        &&& s.msg_hash@.len() == self.nonce_len()
        &&& s.n1@.len() == self.nonce_len()
        &&& s.r@.len() == self.nonce_len()
        &&& s.alpha@.len() == self.alpha_len()
        &&& s.beta@.len() == self.beta_len()
        &&& s.sigj_n1@.len() == self.judge_sig_len(s.n1@.len())
        &&& s.sigj_n2@.len() == self.judge_sig_len(s.n2@.len())
        &&& s.pi_n1@.len() == s.n1@.len()
        &&& s.n2@.len() == s.n1@.len()
    }

    /// Decides `state_accepted`: the checks that the third signing step runs
    /// on the user state before anything else.
    pub fn accepts_state(&self, s: &UserState) -> (res: bool)
        ensures
            res == self.state_accepted(*s),
            res == (s.msg_hash@.len() == self.lambda / 8
                && s.n1@.len() == self.lambda / 8
                && s.r@.len() == self.lambda / 8
                && s.alpha@.len() == self.lambda / 4
                && s.beta@.len() == self.lambda / 2
                && s.pi_n1@.len() == s.n1@.len()
                && s.n2@.len() == s.n1@.len()
                && s.sigj_n1@.len() == self.mayo_params.sig_bytes + s.n1@.len() + 1
                && s.sigj_n2@.len() == self.mayo_params.sig_bytes + s.n1@.len() + 1),
    {
        proof {
            lemma_state_accepted_iff(*self, *s);
        }
        s.msg_hash.len() == self.lambda / 8 && s.n1.len() == self.lambda / 8 && s.r.len()
            == self.lambda / 8 && s.alpha.len() == self.lambda / 4 && s.beta.len() == self.lambda
            / 2 && self.is_judge_sig_len(s.sigj_n1.len(), s.n1.len()) && self.is_judge_sig_len(
            s.sigj_n2.len(),
            s.n2.len(),
        ) && s.pi_n1.len() == s.n1.len() && s.n2.len() == s.n1.len()
    }

    /// Splits a blinded MAYO signature into the signature proper and the
    /// salt that ends it (`salt_bytes` long).
    pub fn split_blinded_signature(&self, bsig: &[u8]) -> (res: (Vec<u8>, Vec<u8>))
        requires
            bsig@.len() >= self.mayo_params.salt_bytes,
        ensures
            res.0@ == bsig@.subrange(0, bsig@.len() - self.mayo_params.salt_bytes),
            res.1@ == bsig@.subrange(
                bsig@.len() - self.mayo_params.salt_bytes,
                bsig@.len() as int,
            ),
            res.0@ + res.1@ == bsig@,
    {
        let cut: usize = bsig.len() - self.mayo_params.salt_bytes;
        let signature = vstd::slice::slice_to_vec(vstd::slice::slice_subrange(bsig, 0, cut));
        let salt = vstd::slice::slice_to_vec(vstd::slice::slice_subrange(bsig, cut, bsig.len()));
        proof {
            assert(signature@ + salt@ =~= bsig@);
        }
        (signature, salt)
    }

    /// Ends the third signing step: the signature carries `n2`, the judge's
    /// signature on it, `pi_n1` and the proof.
    pub fn sign_3_finish(&self, state: &UserState, proof: Vec<u8>) -> (sig: SignatureType)
        ensures
            signature_from(sig, *state, proof@),
            sig.n2@ == state.n2@,
            sig.sigj_n2@ == state.sigj_n2@,
            sig.proof@ == proof@,
            sig.pi_n1@ == state.pi_n1@,
    {
        SignatureType {
            n2: vstd::slice::slice_to_vec(state.n2.as_slice()),
            sigj_n2: vstd::slice::slice_to_vec(state.sigj_n2.as_slice()),
            proof,
            pi_n1: vstd::slice::slice_to_vec(state.pi_n1.as_slice()),
        }
    }
}

/// The opening of the commitment that the proof shows knowledge of: `n1 || r`.
pub fn commitment_opening(n1: &[u8], r: &[u8]) -> (opening: Vec<u8>)
    ensures
        opening@ == n1@ + r@,
{
    concat_bytes(n1, r)
}

} // verus!
