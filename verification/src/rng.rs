use vstd::prelude::*;

verus! {

/// Smallest inter-move delay, in whole seconds (inclusive bound).
pub const MIN_DELAY: u64 = 2;

/// Largest inter-move delay, in whole seconds (exclusive bound).
pub const MAX_DELAY: u64 = 30;

#[verifier::external_type_specification]
#[verifier::external_body]
pub struct ExThreadRng(rand::rngs::ThreadRng);

/// Relies on rand's `Rng::gen_range` over a half-open range: the sample lies
/// in `[lo, hi)`. The call panics only on an empty range, which `requires`
/// rules out.
#[verifier::external_body]
fn gen_range_u64(rng: &mut rand::rngs::ThreadRng, lo: u64, hi: u64) -> (r: u64)
    requires
        lo < hi,
    ensures
        lo <= r < hi,
{
    rand::Rng::gen_range(rng, lo..hi)
}

/// A randomly drawn cursor target within the monitor bounds: the abscissa in
/// `[0, max_x)` and the ordinate in `[0, max_y)`.
pub fn random_position(rng: &mut rand::rngs::ThreadRng, max_x: u32, max_y: u32) -> (p: (u32, u32))
    requires
        max_x > 0,
        max_y > 0,
    ensures
        p.0 < max_x,
        p.1 < max_y,
{
    let x = gen_range_u64(rng, 0, max_x as u64);
    let y = gen_range_u64(rng, 0, max_y as u64);
    (x as u32, y as u32)
}

/// A randomly drawn inter-move delay: at least `MIN_DELAY` and below
/// `MAX_DELAY` whole seconds.
pub fn random_delay_secs(rng: &mut rand::rngs::ThreadRng) -> (d: u64)
    ensures
        MIN_DELAY <= d < MAX_DELAY,
{
    gen_range_u64(rng, MIN_DELAY, MAX_DELAY)
}

} // verus!
