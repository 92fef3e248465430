//! The source of chance behind a freshly seeded lattice.
//!
//! Everything here is believed, not proved: it is the boundary to the `rand`
//! crate.

use vstd::prelude::*;
use rand::rngs::ThreadRng;
use rand::Rng;

verus! {

/// `rand::rngs::ThreadRng`, the handle to the calling thread's generator.
/// Its state is hidden: nothing can be said of what it will draw.
#[verifier::external_type_specification]
#[verifier::external_body]
pub struct ExThreadRng(ThreadRng);

/// `rand::thread_rng`: the calling thread's generator, seeded by the system.
/// Nothing is claimed of the handle it returns.
pub assume_specification[ rand::thread_rng ]() -> ThreadRng
;

/// `rand::Rng::gen_ratio` on the thread's generator: a draw that is `true`
/// with probability `numerator / denominator`.
///
/// The call panics on a zero denominator and on a numerator above the
/// denominator, so both are ruled out. Of the outcome only the two certain
/// cases are claimed, as the crate documents them: a ratio of one always
/// gives `true`, a ratio of zero always gives `false`.
#[verifier::external_body]
pub(crate) fn draw_ratio(rng: &mut ThreadRng, numerator: u32, denominator: u32) -> (drawn: bool)
    requires
        denominator > 0,
        numerator <= denominator,
    ensures
        numerator == denominator ==> drawn,
        numerator == 0 ==> !drawn,
{
    rng.gen_ratio(numerator, denominator)
}

} // verus!
