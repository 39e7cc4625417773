//! Blind signatures with judge-backed registration.
//!
//! The library holds the byte-level logic of the scheme: the tagged
//! registration messages, the masking of the registration nonces, the
//! acceptance rules of every protocol step, the framing of commitment inputs
//! and the registration checks of the verifier. The MAYO signature scheme,
//! SHAKE256 and the zero-knowledge proof system are driven around it.

pub mod blind_sig_conservative;
pub mod bytes;
pub mod commitment;
pub mod randomness;
pub mod registration;
pub mod sign;
pub mod verify;
pub mod laws;
