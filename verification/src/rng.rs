//! Random sampling, behind trusted wrappers: nothing is promised of the
//! values beyond their count.

use rand::Rng;
use vstd::prelude::*;

verus! {

/// Relies on rand::thread_rng / Rng::gen: two uniformly sampled bytes.
/// Nothing is promised of their values. The call aborts the process only
/// when the OS entropy source cannot be initialized at all.
#[verifier::external_body]
pub fn random_byte_pair() -> (r: (u8, u8)) {
    let v: [u8; 2] = rand::thread_rng().gen();
    (v[0], v[1])
}

/// Relies on rand::thread_rng / Rng::gen: six uniformly sampled bytes.
/// Nothing is promised of their values. The call aborts the process only
/// when the OS entropy source cannot be initialized at all.
#[verifier::external_body]
pub fn random_six_bytes() -> (r: Vec<u8>)
    ensures
        r@.len() == 6,
{
    let v: [u8; 6] = rand::thread_rng().gen();
    v.to_vec()
}

} // verus!
