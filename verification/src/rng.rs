//! Random cells for the food, drawn with the `rand` crate.

use crate::grid::Position;
use rand::rngs::ThreadRng;
use rand::Rng;
use vstd::prelude::*;

verus! {

/// `rand::rngs::ThreadRng`, the handle to the calling thread's generator. Its inside
/// is hidden from the verifier.
#[verifier::external_type_specification]
#[verifier::external_body]
pub struct ExThreadRng(ThreadRng);

/// `rand::thread_rng` hands out the calling thread's generator, seeding it from the
/// operating system on first use. Nothing is assumed about the handle. The call
/// returns unless the operating system refuses to seed the generator.
pub assume_specification[ rand::thread_rng ]() -> (rng: ThreadRng);

/// Draws one coordinate with `rand::Rng::gen_range` over the half-open range
/// `0..limit`. `gen_range` rejects an empty range, hence the demand on `limit`; the
/// one thing taken for granted is that the value drawn lies in the range asked for.
#[verifier::external_body]
fn draw_below(rng: &mut ThreadRng, limit: i32) -> (value: i32)
    requires
        limit > 0,
    ensures
        0 <= value < limit,
{
    rng.gen_range(0..limit)
}

/// Draws a cell of the board, each coordinate on its own. Which cell comes out is
/// left to chance; it may be one the snake occupies.
pub fn random_cell(bounds: (i32, i32)) -> (cell: Position)
    requires
        bounds.0 > 0,
        bounds.1 > 0,
    ensures
        cell.within(bounds),
{
    let mut rng = rand::thread_rng();
    let x = draw_below(&mut rng, bounds.0);
    let y = draw_below(&mut rng, bounds.1);
    Position { x, y }
}

} // verus!
