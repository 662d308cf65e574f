//! Random apple placement: fresh randomness reduced onto the board.

use vstd::prelude::*;

use crate::geometry::Point;

verus! {

/// Relies on rand::random: a pair of words drawn from the thread-local
/// generator. Nothing can be promised of random values.
#[verifier::external_body]
fn random_u32_pair() -> (u32, u32) {
    rand::random::<(u32, u32)>()
}

/// Reduces an arbitrary pair of machine words onto the board by taking each
/// coordinate modulo the board size.
pub fn point_from_random(rx: u32, ry: u32) -> (r: Point)
    ensures
        r.x as int == rx as int % 32,
        r.y as int == ry as int % 24,
        r.in_grid(),
{
    let x: i32 = (rx % 32) as i32;
    let y: i32 = (ry % 24) as i32;
    Point { x, y }
}

/// A random cell of the board, used whenever the apple is (re)placed. The
/// cell may coincide with the snake's body; that matches the game's rules.
pub fn random_point() -> (r: Point)
    ensures
        r.in_grid(),
{
    let (rx, ry) = random_u32_pair();
    point_from_random(rx, ry)
}

} // verus!
