use blind_signatures_conservative::blind_sig_conservative::{
    BlindSignatureConservative, MayoParams, RegistrationSenderOutput, SignatureType,
};
use blind_signatures_conservative::commitment::rain_commitment_input;
use blind_signatures_conservative::randomness::random_bytes;
use blind_signatures_conservative::registration::{judge_registration_values, reg_judge_finish};
use blind_signatures_conservative::sign::commitment_opening;

fn scheme() -> BlindSignatureConservative {
    BlindSignatureConservative {
        lambda: 128,
        mayo_params: MayoParams { sig_bytes: 454, m_digest_bytes: 32, salt_bytes: 24 },
    }
}

fn registration(bs: &BlindSignatureConservative) -> RegistrationSenderOutput {
    let n1: Vec<u8> = (40..56u8).collect();
    let alpha: Vec<u8> = (0..32u8).map(|i| i.wrapping_mul(13).wrapping_add(200)).collect();
    let beta: Vec<u8> = vec![0x42; 64];
    let values = judge_registration_values(n1, alpha, beta);
    let sig_len = bs.mayo_params.sig_bytes + 16 + 1;
    let o = reg_judge_finish(values, vec![3; sig_len], vec![4; sig_len]);
    bs.reg_sender(&o)
}

fn honest_signature(bs: &BlindSignatureConservative) -> (RegistrationSenderOutput, SignatureType) {
    let reg = registration(bs);
    let r = bs.sign_1_randomness();
    let (com, state) = bs.sign_1_finish(&reg, vec![9; 16], r, vec![5; 32]);
    assert_eq!(com, vec![5; 32]);
    let sig = bs.sign_3_finish(&state, vec![0xab; 100]);
    (reg, sig)
}

#[test]
fn rain_input_pads_with_ff_to_64_bytes() {
    let m = vec![42; 21];
    let r = vec![0; 10];
    let input = rain_commitment_input(&m, &r);
    assert_eq!(input.len(), 64);
    assert_eq!(&input[..21], &m[..]);
    assert_eq!(&input[21..31], &r[..]);
    assert!(input[31..].iter().all(|b| *b == 0xff));
}

#[test]
fn rain_input_without_room_for_padding() {
    let m = vec![1; 32];
    let r = vec![2; 32];
    let input = rain_commitment_input(&m, &r);
    let mut expected = m.clone();
    expected.extend_from_slice(&r);
    assert_eq!(input, expected);
    assert_eq!(rain_commitment_input(&[], &[]), vec![0xff; 64]);
}

#[test]
fn random_bytes_have_requested_length() {
    assert_eq!(random_bytes(0).len(), 0);
    let a = random_bytes(32);
    let b = random_bytes(32);
    assert_eq!(a.len(), 32);
    assert_ne!(a, b);
}

#[test]
fn sign_1_randomness_has_nonce_length() {
    let bs = scheme();
    assert_eq!(bs.sign_1_randomness().len(), 16);
}

#[test]
fn sign_1_keeps_registration_in_state() {
    let bs = scheme();
    let reg = registration(&bs);
    assert!(bs.accepts_sender_output(&reg));
    let r: Vec<u8> = (0..16u8).collect();
    let (com, state) = bs.sign_1_finish(&reg, vec![8; 16], r.clone(), vec![6; 32]);
    assert_eq!(com, vec![6; 32]);
    assert_eq!(state.msg_hash, vec![8; 16]);
    assert_eq!(state.n1, reg.n1);
    assert_eq!(state.r, r);
    assert_eq!(state.alpha, reg.alpha);
    assert_eq!(state.beta, reg.beta);
    assert_eq!(state.sigj_n1, reg.sigj_n1);
    assert_eq!(state.sigj_n2, reg.sigj_n2);
    assert_eq!(state.pi_n1, reg.pi_n1);
    assert_eq!(state.n2, reg.n2);
    assert!(bs.accepts_state(&state));
}

#[test]
fn sender_output_checks_reject_bad_lengths() {
    let bs = scheme();
    let good = registration(&bs);
    let mut reg = good.clone();
    reg.n2.pop();
    assert!(!bs.accepts_sender_output(&reg));
    let mut reg = good.clone();
    reg.sigj_n2.pop();
    assert!(!bs.accepts_sender_output(&reg));
    let mut reg = good.clone();
    reg.beta.pop();
    assert!(!bs.accepts_sender_output(&reg));
}

#[test]
fn state_checks_reject_bad_lengths() {
    let bs = scheme();
    let reg = registration(&bs);
    let (_, good) = bs.sign_1_finish(&reg, vec![8; 16], vec![1; 16], vec![6; 32]);
    let mut s = good.clone();
    s.msg_hash.push(0);
    assert!(!bs.accepts_state(&s));
    let mut s = good.clone();
    s.r.pop();
    assert!(!bs.accepts_state(&s));
    let mut s = good.clone();
    s.sigj_n1.push(0);
    assert!(!bs.accepts_state(&s));
}

#[test]
fn blinded_signature_splits_off_salt() {
    let bs = scheme();
    let bsig: Vec<u8> = (0..100u8).collect();
    let (signature, salt) = bs.split_blinded_signature(&bsig);
    assert_eq!(signature, (0..76u8).collect::<Vec<u8>>());
    assert_eq!(salt, (76..100u8).collect::<Vec<u8>>());
    let (signature, salt) = bs.split_blinded_signature(&bsig[..24]);
    assert!(signature.is_empty());
    assert_eq!(salt.len(), 24);
}

#[test]
fn opening_is_n1_then_r() {
    assert_eq!(commitment_opening(&[1, 2], &[3, 4, 5]), vec![1, 2, 3, 4, 5]);
}

#[test]
fn signature_carries_registration_values() {
    let bs = scheme();
    let (reg, sig) = honest_signature(&bs);
    assert_eq!(sig.n2, reg.n2);
    assert_eq!(sig.sigj_n2, reg.sigj_n2);
    assert_eq!(sig.pi_n1, reg.pi_n1);
    assert_eq!(sig.proof, vec![0xab; 100]);
}

#[test]
fn honest_signature_passes_registration_checks() {
    let bs = scheme();
    let (reg, sig) = honest_signature(&bs);
    assert!(bs.verify_registration_values(&sig, &reg.pi_n1, &reg.alpha));
}

#[test]
fn registration_checks_reject_tampering() {
    let bs = scheme();
    let (reg, good) = honest_signature(&bs);

    // wrong lengths of the verifier's inputs
    assert!(!bs.verify_registration_values(&good, &reg.pi_n1[..15], &reg.alpha));
    assert!(!bs.verify_registration_values(&good, &reg.pi_n1, &reg.beta));

    // a different pi_n1 than the one in the signature
    let mut other_pi = reg.pi_n1.clone();
    other_pi[0] ^= 0x80;
    assert!(!bs.verify_registration_values(&good, &other_pi, &reg.alpha));

    // n2 of the wrong length
    let mut sig = good.clone();
    sig.n2.push(0);
    assert!(!bs.verify_registration_values(&sig, &reg.pi_n1, &reg.alpha));

    // judge signature of the wrong length
    let mut sig = good.clone();
    sig.sigj_n2.pop();
    assert!(!bs.verify_registration_values(&sig, &reg.pi_n1, &reg.alpha));

    // an n2 that is not derived from n1
    let mut sig = good.clone();
    sig.n2[5] ^= 1;
    assert!(!bs.verify_registration_values(&sig, &reg.pi_n1, &reg.alpha));

    // a different mask
    let mut alpha = reg.alpha.clone();
    alpha[20] ^= 1;
    assert!(!bs.verify_registration_values(&good, &reg.pi_n1, &alpha));
}

#[test]
fn state_from_bad_inputs_is_not_accepted() {
    let bs = scheme();
    let good = registration(&bs);
    let (_, s) = bs.sign_1_finish(&good, vec![8; 15], vec![1; 16], vec![6; 32]);
    assert!(!bs.accepts_state(&s));
    let (_, s) = bs.sign_1_finish(&good, vec![8; 16], vec![1; 17], vec![6; 32]);
    assert!(!bs.accepts_state(&s));
    let mut reg = good.clone();
    reg.alpha.push(0);
    let (_, s) = bs.sign_1_finish(&reg, vec![8; 16], vec![1; 16], vec![6; 32]);
    assert!(!bs.accepts_state(&s));
}

