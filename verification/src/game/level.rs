//! The arena: a ring of bricks around the stage.

use vstd::prelude::*;

verus! {

/// Half the side of a brick.
pub const BRICK_APOTHEM: i32 = 15;

/// Bricks across the arena, less one.
pub const BRICKS_WIDE: i32 = 40;

/// Bricks up the arena.
pub const BRICKS_TALL: i32 = 22;

/// Distance from the centre to the left and right walls.
pub const LEVEL_WIDTH: i32 = 600;

/// Distance from the centre to the top and bottom walls.
pub const LEVEL_HEIGHT: i32 = 330;

/// Number of bricks in the arena.
pub const BRICK_COUNT: usize = 124;

/// The centre of the i-th brick: first the top and bottom walls, column by
/// column from the left (top brick, then bottom brick), then the left and
/// right walls, row by row from the bottom (left brick, then right brick).
pub open spec fn brick_at(i: int) -> (i32, i32) {
    if i < 82 {
        ((30 * (i / 2 - 20)) as i32, if i % 2 == 0 { 330i32 } else { -330i32 })
    } else {
        let j = i - 82;
        (if j % 2 == 0 { -600i32 } else { 600i32 }, (30 * (j / 2 - 10)) as i32)
    }
}

/// The centres of all the bricks, in the order they are placed.
pub open spec fn brick_layout() -> Seq<(i32, i32)> {
    Seq::new(BRICK_COUNT as nat, |i: int| brick_at(i))
}

/// The centres of the bricks that build the arena walls.
pub fn setup() -> (bricks: Vec<(i32, i32)>)
    ensures
        bricks@ == brick_layout(),
{
    let mut bricks: Vec<(i32, i32)> = Vec::new();
    // top and bottom walls
    for count in 0..BRICKS_WIDE + 1
        invariant
            bricks@.len() == 2 * count,
            forall|k: int| 0 <= k < bricks@.len() ==> bricks@[k] == brick_at(k),
    {
        let position: i32 = count - BRICKS_WIDE / 2;
        assert(-20 <= position <= 20);
        let side: i32 = BRICK_APOTHEM * 2;
        assert(side * position == 30 * position && -600 <= side * position <= 600) by (nonlinear_arith)
            requires
                side == 30,
                -20 <= position <= 20,
        ;
        let x: i32 = side * position;
        let top: i32 = BRICK_APOTHEM * BRICKS_TALL;
        let bottom: i32 = -BRICK_APOTHEM * BRICKS_TALL;
        assert(brick_at(2 * count as int) == (x, top));
        assert(brick_at(2 * count + 1) == (x, bottom));
        bricks.push((x, top));
        bricks.push((x, bottom));
    }
    // left and right walls
    for count in 1..BRICKS_TALL
        invariant
            bricks@.len() == 82 + 2 * (count - 1),
            forall|k: int| 0 <= k < bricks@.len() ==> bricks@[k] == brick_at(k),
    {
        let position: i32 = count - BRICKS_TALL / 2;
        assert(-10 <= position <= 10);
        let side: i32 = BRICK_APOTHEM * 2;
        assert(side * position == 30 * position && -300 <= side * position <= 300) by (nonlinear_arith)
            requires
                side == 30,
                -10 <= position <= 10,
        ;
        let y: i32 = side * position;
        let left: i32 = -BRICK_APOTHEM * BRICKS_WIDE;
        let right: i32 = BRICK_APOTHEM * BRICKS_WIDE;
        assert(brick_at(82 + 2 * (count - 1)) == (left, y));
        assert(brick_at(82 + 2 * (count - 1) + 1) == (right, y));
        bricks.push((left, y));
        bricks.push((right, y));
    }
    assert(bricks@ == brick_layout());
    bricks
}

/// Every brick stands on the edge of the arena: on the left or right wall
/// within the arena's height, or on the top or bottom wall within its width.
pub proof fn lemma_bricks_on_walls()
    ensures
        forall|i: int|
            0 <= i < BRICK_COUNT ==> {
                let (x, y) = #[trigger] brick_at(i);
                &&& -LEVEL_WIDTH <= x <= LEVEL_WIDTH
                &&& -LEVEL_HEIGHT <= y <= LEVEL_HEIGHT
                &&& (x == LEVEL_WIDTH || x == -LEVEL_WIDTH || y == LEVEL_HEIGHT || y == -LEVEL_HEIGHT)
            },
{
}

/// No two bricks share a place.
pub proof fn lemma_bricks_distinct()
    ensures
        forall|i: int, j: int| 0 <= i < j < BRICK_COUNT ==> #[trigger] brick_at(i) != #[trigger] brick_at(j),
{
}

} // verus!
