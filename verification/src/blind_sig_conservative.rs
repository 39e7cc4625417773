//! The types and parameters shared by every step of the protocol.

use vstd::prelude::*;

verus! {

/// The sizes of the MAYO parameter set that the protocol reads.
#[derive(Clone, Copy, Debug, PartialEq, Eq)]
pub struct MayoParams {
    /// Length in bytes of a MAYO signature without the signed message.
    pub sig_bytes: usize,
    /// Length in bytes of a MAYO message digest.
    pub m_digest_bytes: usize,
    /// Length in bytes of the salt that ends a MAYO signature.
    pub salt_bytes: usize,
}

/// The parameters of one instance of the blind signature scheme.
///
/// `lambda` is the security level in bits; nonces and commitment randomness
/// take `lambda / 8` bytes, the mask `alpha` takes `lambda / 4` bytes and
/// `beta` takes `lambda / 2` bytes.
#[derive(Clone, Copy, Debug, PartialEq, Eq)]
pub struct BlindSignatureConservative {
    pub lambda: usize,
    pub mayo_params: MayoParams,
}

/// What the judge hands to the sender at registration.
#[derive(Clone, Debug, PartialEq, Eq)]
pub struct RegistrationJudgeOutput {
    pub n1: Vec<u8>,
    pub sigj_n1: Vec<u8>,
    pub pi_n1: Vec<u8>,
    pub alpha: Vec<u8>,
    pub beta: Vec<u8>,
    pub sigj_n2: Vec<u8>,
}

/// What the sender keeps after registration: the judge's values and `n2`.
#[derive(Clone, Debug, PartialEq, Eq)]
pub struct RegistrationSenderOutput {
    pub n1: Vec<u8>,
    pub sigj_n1: Vec<u8>,
    pub pi_n1: Vec<u8>,
    pub alpha: Vec<u8>,
    pub beta: Vec<u8>,
    pub sigj_n2: Vec<u8>,
    pub n2: Vec<u8>,
}

/// The state that the user carries from the first signing step to the third.
#[derive(Clone, Debug, PartialEq, Eq)]
pub struct UserState {
    pub msg_hash: Vec<u8>,
    pub n1: Vec<u8>,
    pub r: Vec<u8>,
    pub alpha: Vec<u8>,
    pub beta: Vec<u8>,
    pub sigj_n1: Vec<u8>,
    pub sigj_n2: Vec<u8>,
    pub pi_n1: Vec<u8>,
    pub n2: Vec<u8>,
}

/// A finished signature: the registration values that the verifier checks
/// and the bytes of the zero-knowledge proof.
#[derive(Clone, Debug, PartialEq, Eq)]
pub struct SignatureType {
    pub n2: Vec<u8>,
    pub sigj_n2: Vec<u8>,
    pub proof: Vec<u8>,
    pub pi_n1: Vec<u8>,
}

impl BlindSignatureConservative {
    /// Length of the nonces `n1`, `n2`, of `pi_n1`, of the message hash and of
    /// the commitment randomness.
    pub open spec fn nonce_len(self) -> nat {
        (self.lambda / 8) as nat
    }

    /// Length of the mask `alpha`.
    pub open spec fn alpha_len(self) -> nat {
        (self.lambda / 4) as nat
    }

    /// Length of `beta`.
    pub open spec fn beta_len(self) -> nat {
        (self.lambda / 2) as nat
    }

    /// Length of a MAYO signature of a tagged registration message on a nonce
    /// of `nonce_len` bytes: the signature, the nonce and the tag byte.
    pub open spec fn judge_sig_len(self, nonce_len: nat) -> nat {
        (self.mayo_params.sig_bytes + nonce_len + 1) as nat
    }
}

/// The mask lengths that the security level fixes leave room for both
/// halves of `alpha` and for `n1` inside `beta`.
pub proof fn lemma_lengths_fit(lambda: usize)
    ensures
        lambda / 4 >= 2 * (lambda / 8),
        lambda / 2 >= 2 * (lambda / 8),
        lambda / 4 >= lambda / 8,
{
}

} // verus!
