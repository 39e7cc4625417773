use blind_signatures_conservative::blind_sig_conservative::{
    BlindSignatureConservative, MayoParams, RegistrationJudgeOutput,
};
use blind_signatures_conservative::registration::{
    compute_n1_from_pi_n1, compute_n2, compute_pi_n1, judge_registration_values,
    reg_judge_finish, tagged_registration_message, REGISTRATION_N1_TAG, REGISTRATION_N2_TAG,
};

fn scheme() -> BlindSignatureConservative {
    BlindSignatureConservative {
        lambda: 128,
        mayo_params: MayoParams { sig_bytes: 454, m_digest_bytes: 32, salt_bytes: 24 },
    }
}

fn xor(a: &[u8], b: &[u8]) -> Vec<u8> {
    a.iter().zip(b.iter()).map(|(x, y)| x ^ y).collect()
}

fn honest_judge_output(bs: &BlindSignatureConservative) -> RegistrationJudgeOutput {
    let n1: Vec<u8> = (0..16u8).collect();
    let alpha: Vec<u8> = (0..32u8).map(|i| i.wrapping_mul(37).wrapping_add(5)).collect();
    let beta: Vec<u8> = vec![7; 64];
    let values = judge_registration_values(n1, alpha, beta);
    let sig_len = bs.mayo_params.sig_bytes + 16 + 1;
    reg_judge_finish(values, vec![1; sig_len], vec![2; sig_len])
}

#[test]
fn tagged_message_appends_tag_byte() {
    assert_eq!(tagged_registration_message(&[1, 2, 3], REGISTRATION_N1_TAG), vec![1, 2, 3, 0]);
    assert_eq!(tagged_registration_message(&[1, 2, 3], REGISTRATION_N2_TAG), vec![1, 2, 3, 0x80]);
    assert_eq!(tagged_registration_message(&[], true), vec![0x80]);
}

#[test]
fn tagged_messages_of_the_two_roles_differ() {
    let nonce = [9u8; 16];
    assert_ne!(
        tagged_registration_message(&nonce, REGISTRATION_N1_TAG),
        tagged_registration_message(&nonce, REGISTRATION_N2_TAG)
    );
}

#[test]
fn pi_n1_masks_with_first_half_of_alpha() {
    let n1 = vec![0x0f, 0xf0, 0xaa];
    let alpha = vec![0xff, 0x0f, 0x55, 1, 2, 3];
    assert_eq!(compute_pi_n1(&n1, &alpha), vec![0xf0, 0xff, 0xff]);
}

#[test]
fn n2_masks_with_second_half_of_alpha() {
    let n1 = vec![0x0f, 0xf0, 0xaa];
    let alpha = vec![0xff, 0x0f, 0x55, 1, 2, 3];
    assert_eq!(compute_n2(&n1, &alpha), vec![0x0e, 0xf2, 0xa9]);
}

#[test]
fn unmasking_pi_n1_recovers_n1() {
    let n1: Vec<u8> = (100..116u8).collect();
    let alpha: Vec<u8> = (0..32u8).map(|i| i.wrapping_mul(91)).collect();
    let pi_n1 = compute_pi_n1(&n1, &alpha);
    assert_ne!(pi_n1, n1);
    assert_eq!(compute_n1_from_pi_n1(&pi_n1, &alpha), n1);
}

#[test]
fn judge_values_are_derived_from_samples() {
    let n1: Vec<u8> = (0..16u8).collect();
    let alpha: Vec<u8> = (0..32u8).map(|i| i ^ 0x5a).collect();
    let beta: Vec<u8> = vec![3; 64];
    let v = judge_registration_values(n1.clone(), alpha.clone(), beta.clone());
    assert_eq!(v.n1, n1);
    assert_eq!(v.alpha, alpha);
    assert_eq!(v.beta, beta);
    assert_eq!(v.pi_n1, xor(&alpha[..16], &n1));
    let expected_n2 = xor(&alpha[16..32], &n1);
    assert_eq!(v.n2, expected_n2);
    let mut n1_message = n1.clone();
    n1_message.push(0);
    assert_eq!(v.n1_message, n1_message);
    let mut n2_message = expected_n2.clone();
    n2_message.push(0x80);
    assert_eq!(v.n2_message, n2_message);
}

#[test]
fn reg_judge_prepare_samples_lengths_of_the_instance() {
    let bs = scheme();
    let v = bs.reg_judge_prepare();
    assert_eq!(v.n1.len(), bs.lambda / 8);
    assert_eq!(v.alpha.len(), bs.lambda / 4);
    assert_eq!(v.beta.len(), bs.lambda / 2);
    assert_eq!(v.pi_n1, compute_pi_n1(&v.n1, &v.alpha));
    assert_eq!(v.n2, compute_n2(&v.n1, &v.alpha));
    assert_eq!(v.n1_message, tagged_registration_message(&v.n1, REGISTRATION_N1_TAG));
    assert_eq!(v.n2_message, tagged_registration_message(&v.n2, REGISTRATION_N2_TAG));
    let w = bs.reg_judge_prepare();
    assert_ne!(v.n1, w.n1);
}

#[test]
fn judge_sig_len_is_signature_nonce_and_tag() {
    let bs = scheme();
    assert!(bs.is_judge_sig_len(454 + 16 + 1, 16));
    assert!(!bs.is_judge_sig_len(454 + 16, 16));
    assert!(!bs.is_judge_sig_len(0, 16));
    assert!(!bs.is_judge_sig_len(usize::MAX, usize::MAX));
}

#[test]
fn sender_accepts_honest_judge_output() {
    let bs = scheme();
    let o = honest_judge_output(&bs);
    assert!(bs.accepts_judge_output(&o));
    let reg = bs.reg_sender(&o);
    assert_eq!(reg.n1, o.n1);
    assert_eq!(reg.sigj_n1, o.sigj_n1);
    assert_eq!(reg.pi_n1, o.pi_n1);
    assert_eq!(reg.alpha, o.alpha);
    assert_eq!(reg.beta, o.beta);
    assert_eq!(reg.sigj_n2, o.sigj_n2);
    assert_eq!(reg.n2, xor(&o.alpha[16..32], &o.n1));
    assert!(bs.accepts_sender_output(&reg));
}

#[test]
fn sender_rejects_malformed_judge_output() {
    let bs = scheme();
    let good = honest_judge_output(&bs);

    let mut o = good.clone();
    o.n1.push(0);
    assert!(!bs.accepts_judge_output(&o));

    let mut o = good.clone();
    o.alpha.pop();
    assert!(!bs.accepts_judge_output(&o));

    let mut o = good.clone();
    o.beta.push(1);
    assert!(!bs.accepts_judge_output(&o));

    let mut o = good.clone();
    o.pi_n1[3] ^= 1;
    assert!(!bs.accepts_judge_output(&o));

    let mut o = good.clone();
    o.pi_n1.pop();
    assert!(!bs.accepts_judge_output(&o));

    let mut o = good.clone();
    o.sigj_n1.pop();
    assert!(!bs.accepts_judge_output(&o));

    let mut o = good.clone();
    o.sigj_n2.push(0);
    assert!(!bs.accepts_judge_output(&o));
}
