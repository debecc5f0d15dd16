//! Random choices of the simulation.

use vstd::prelude::*;
use rand::Rng;

verus! {

/// Relies on `rand::Rng::gen_range` on the thread-local generator of
/// `rand::thread_rng`: for a non-empty range `0..bound` it returns a value of
/// that range (and panics on an empty one, which `requires` leaves out).
#[verifier::external_body]
pub(crate) fn random_below(bound: usize) -> (r: usize)
    requires
        bound > 0,
    ensures
        r < bound,
{
    rand::thread_rng().gen_range(0..bound)
}

/// A uniformly drawn per-mille value, in `0..=1000`.
pub fn random_per_mille() -> (r: u16)
    ensures
        r <= 1000,
{
    random_below(1001) as u16
}

/// A glyph drawn uniformly from `glyphs`.
pub fn random_glyph(glyphs: &Vec<char>) -> (c: char)
    requires
        glyphs.len() > 0,
    ensures
        glyphs@.contains(c),
{
    let i = random_below(glyphs.len());
    glyphs[i]
}

} // verus!
