//! Fresh random bytes from the thread-local generator of `rand`.

use vstd::prelude::*;
use rand::Rng;

verus! {

#[verifier::external_type_specification]
#[verifier::external_body]
pub struct ExThreadRng(rand::rngs::ThreadRng);

/// Calls `rand::rng`, which hands out the thread-local generator. Nothing is
/// claimed of the handle: its state is seeded from the operating system.
#[verifier::external_body]
fn thread_rng() -> (rng: rand::rngs::ThreadRng) {
    rand::rng()
}

/// Calls `Rng::random::<u8>` on the thread-local generator. The byte is
/// uniformly distributed; no clause states anything of its value.
#[verifier::external_body]
fn random_byte(rng: &mut rand::rngs::ThreadRng) -> (b: u8) {
    rng.random::<u8>()
}

/// Samples `len` fresh random bytes, one at a time, as the protocol's random
/// nonces, masks and commitment randomness are sampled.
pub fn random_bytes(len: usize) -> (res: Vec<u8>)
    ensures
        res@.len() == len,
{
    let mut rng = thread_rng();
    let mut res: Vec<u8> = Vec::new();
    while res.len() < len
        invariant
            res@.len() <= len,
        decreases len - res@.len(),
    {
        let b: u8 = random_byte(&mut rng);
        res.push(b);
    }
    res
}

} // verus!
