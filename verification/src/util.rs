//! Small helpers over outside crates: random identifiers and strings.

use rand::Rng;
use vstd::prelude::*;

verus! {

/// Relies on `uuid::Uuid::new_v4` and `alloc::string::ToString`: the
/// hyphenated rendering of a (random) version-4 UUID is exactly 36
/// characters long.
#[verifier::external_body]
pub(crate) fn fresh_uuid() -> (r: String)
    ensures
        r@.len() == 36,
{
    uuid::Uuid::new_v4().to_string()
}

/// Relies on `rand::Rng::sample_iter` over `rand::distributions::Alphanumeric`:
/// an endless stream of random alphanumeric characters, of which exactly
/// `len` are taken and collected.
#[verifier::external_body]
pub fn rand_string(len: usize) -> (r: String)
    ensures
        r@.len() == len,
{
    rand::thread_rng()
        .sample_iter(&rand::distributions::Alphanumeric)
        .take(len)
        .map(char::from)
        .collect()
}

} // verus!
