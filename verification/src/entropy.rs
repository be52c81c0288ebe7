//! The source of randomness: a seedable generator, drawn from in sequence.

use vstd::prelude::*;
use rand::rngs::StdRng;
use rand::Rng;

verus! {

/// The generator of the `rand` crate. Its state is opaque here.
#[verifier::external_type_specification]
#[verifier::external_body]
pub struct ExStdRng(StdRng);

/// Draws a number below `bound`.
///
/// This is `Rng::gen_range` of the `rand` crate on the half-open range
/// `0..bound`. The contract claims what its documentation states: the value
/// lies in the range. The range must not be empty, since `gen_range` panics
/// on an empty range.
#[verifier::external_body]
pub(crate) fn draw_below(rng: &mut StdRng, bound: u128) -> (res: u128)
    requires
        bound > 0,
    ensures
        res < bound,
{
    rng.gen_range(0..bound)
}

/// Draws an index into a collection of `len` items.
pub fn draw_index(rng: &mut StdRng, len: usize) -> (res: usize)
    requires
        len > 0,
    ensures
        res < len,
{
    draw_below(rng, len as u128) as usize
}

/// Draws a number between `low` and `high`, both included.
pub fn draw_between(rng: &mut StdRng, low: usize, high: usize) -> (res: usize)
    requires
        low <= high,
    ensures
        low <= res <= high,
{
    let span: u128 = (high - low) as u128 + 1;
    low + draw_below(rng, span) as usize
}

/// Draws any 64-bit integer: a number below two to the sixty-fourth, read
/// as a signed integer in two's complement.
pub fn draw_integer(rng: &mut StdRng) -> i64 {
    let raw: u128 = draw_below(rng, 0x1_0000_0000_0000_0000);
    integer_from_draw(raw)
}

/// The signed integer that a number below two to the sixty-fourth stands for
/// in two's complement: itself in the lower half, and itself less two to the
/// sixty-fourth in the upper half.
pub open spec fn twos_complement(raw: int) -> int {
    if raw < 0x8000_0000_0000_0000 {
        raw
    } else {
        raw - 0x1_0000_0000_0000_0000
    }
}

/// Reads a drawn number below two to the sixty-fourth as a signed integer.
pub fn integer_from_draw(raw: u128) -> (res: i64)
    requires
        raw < 0x1_0000_0000_0000_0000,
    ensures
        res == twos_complement(raw as int),
{
    if raw < 0x8000_0000_0000_0000 {
        raw as i64
    } else {
        (raw as i128 - 0x1_0000_0000_0000_0000) as i64
    }
}

} // verus!
