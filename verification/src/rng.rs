//! The source of candidate external ports: uniform draws from the high
//! dynamic range, one per allocation attempt.

use vstd::prelude::*;

verus! {

/// Relies on `rand::Rng::gen_range` over `rand::thread_rng`: draws one
/// port from `32768..65535`. Nothing is promised of which port comes
/// back, only that it lies in the range the allocator draws from.
#[verifier::external_body]
pub fn draw_candidate_port() -> (r: u16)
    ensures
        32768 <= r < 65535,
{
    rand::Rng::gen_range(&mut rand::thread_rng(), 32768u16..65535u16)
}

} // verus!
