//! The request payload: a fixed-size random alphanumeric body, built once
//! per sweep and shared read-only by every worker. Only the sampling of the
//! random bytes is delegated to the `rand` crate; the sizing arithmetic is
//! verified here.

use vstd::prelude::*;

use rand::RngExt;

verus! {

/// Payload sizes are given in units of this many bytes.
pub const PAYLOAD_UNIT_BYTES: usize = 1048576;

/// An ASCII letter or decimal digit.
pub open spec fn is_alphanumeric_byte(b: u8) -> bool {
    ||| 97 <= b <= 122  // 'a' ..= 'z'
    ||| 65 <= b <= 90  // 'A' ..= 'Z'
    ||| 48 <= b <= 57  // '0' ..= '9'

}

/// Relies on rand's `Alphanumeric` distribution: every sampled byte is
/// drawn from the 62-character set of ASCII letters and digits, so the
/// collected vector has exactly the requested length and holds nothing but
/// such bytes. Nothing is assumed about which bytes come out: the sampling
/// is random.
#[verifier::external_body]
fn sample_alphanumeric(len: usize) -> (r: Vec<u8>)
    ensures
        r@.len() == len,
        forall|i: int| 0 <= i < r@.len() ==> is_alphanumeric_byte(#[trigger] r@[i]),
{
    rand::rng().sample_iter(rand::distr::Alphanumeric).take(len).collect()
}

/// Build the request body for a run: `size_units` payload units of random
/// alphanumeric bytes. A zero size yields the empty body, which makes every
/// request of the run a read-style exchange.
pub fn build_payload(size_units: usize) -> (r: Vec<u8>)
    requires
        size_units <= usize::MAX / PAYLOAD_UNIT_BYTES,
    ensures
        r@.len() == size_units * PAYLOAD_UNIT_BYTES,
        forall|i: int| 0 <= i < r@.len() ==> is_alphanumeric_byte(#[trigger] r@[i]),
{
    proof {
        assert(size_units * PAYLOAD_UNIT_BYTES <= (usize::MAX / PAYLOAD_UNIT_BYTES)
            * PAYLOAD_UNIT_BYTES <= usize::MAX) by (nonlinear_arith)
            requires
                0 <= size_units <= usize::MAX / PAYLOAD_UNIT_BYTES,
        ;
    }
    sample_alphanumeric(size_units * PAYLOAD_UNIT_BYTES)
}

} // verus!
