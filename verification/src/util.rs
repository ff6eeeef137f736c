//! Small shims over std and rand for operations vstd leaves unspecified.

use rand::Rng;
use vstd::prelude::*;
use vstd::string::StringExecFns;

verus! {

/// Relies on `<str as PartialEq>::eq`: string slices compare equal exactly
/// when their characters do.
#[verifier::external_body]
pub(crate) fn str_eq(a: &str, b: &str) -> (r: bool)
    ensures
        r == (a@ == b@),
{
    a == b
}

/// Relies on rand's `thread_rng` and `Rng::gen_range`: a uniformly random
/// integer drawn from `1..=u32::MAX`, so never zero.
#[verifier::external_body]
pub(crate) fn random_nonzero_u32() -> (r: u32)
    ensures
        r >= 1,
{
    rand::thread_rng().gen_range(1..=u32::MAX)
}

/// The protocol version string every message carries.
pub(crate) fn version_string() -> (r: String)
    ensures
        r@ == "2.0"@,
{
    String::from_str("2.0")
}

} // verus!
