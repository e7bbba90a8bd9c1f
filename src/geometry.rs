//! Sizes of the playing field and the outlines that a frame draws, in pixels.

use vstd::prelude::*;

verus! {

/// Width of the window.
pub const WINDOW_WIDTH: u32 = 641;

/// Height of the window.
pub const WINDOW_HEIGHT: u32 = 800;

/// Number of rows, and of columns, of the block grid.
pub const GRID_SIZE: usize = 16;

/// Side of a block: the window's width less one, split over the columns.
pub const BLOCK_SIZE: i32 = 40;

/// Distance from the player's centre to each corner of its diamond.
pub const PLAYER_REACH: i32 = 20;

/// Gap between a score label and the window's edge.
pub const LABEL_MARGIN: u32 = 10;

/// Top-left corner of the cell at `row` and `col`.
pub open spec fn cell_origin(row: int, col: int) -> (i32, i32) {
    ((col * BLOCK_SIZE) as i32, (row * BLOCK_SIZE) as i32)
}

/// Top-left corner of a cell of the grid, as `(x, y)`.
pub fn block_origin(row: usize, col: usize) -> (r: (i32, i32))
    requires
        row < GRID_SIZE,
        col < GRID_SIZE,
    ensures
        r == cell_origin(row as int, col as int),
        r.0 == col * BLOCK_SIZE,
        r.1 == row * BLOCK_SIZE,
{
    ((col as i32) * BLOCK_SIZE, (row as i32) * BLOCK_SIZE)
}

/// The closed outline of a block whose top-left corner is `(x, y)`: its four
/// corners clockwise, back to the first.
pub open spec fn square_outline(x: i32, y: i32) -> Seq<(i32, i32)> {
    let x2 = (x + BLOCK_SIZE) as i32;
    let y2 = (y + BLOCK_SIZE) as i32;
    seq![(x, y), (x2, y), (x2, y2), (x, y2), (x, y)]
}

/// Points of the outline of a block whose top-left corner is `(x, y)`.
pub fn block_outline(x: i32, y: i32) -> (r: Vec<(i32, i32)>)
    requires
        x + BLOCK_SIZE <= i32::MAX,
        y + BLOCK_SIZE <= i32::MAX,
    ensures
        r@ == square_outline(x, y),
{
    let x2 = x + BLOCK_SIZE;
    let y2 = y + BLOCK_SIZE;
    let r = vec![(x, y), (x2, y), (x2, y2), (x, y2), (x, y)];
    assert(r@ =~= square_outline(x, y));
    r
}

/// The closed octagon drawn for a ball of radius `r` centred on `(x, y)`: the
/// four points at distance `r` on the axes and, between them, the four at
/// offset two thirds of `r` on both axes, going round from the right.
pub open spec fn octagon_outline(x: i32, y: i32, r: i32) -> Seq<(i32, i32)> {
    let d = 2 * r / 3;
    seq![
        ((x + r) as i32, y),
        ((x + d) as i32, (y + d) as i32),
        (x, (y + r) as i32),
        ((x - d) as i32, (y + d) as i32),
        ((x - r) as i32, y),
        ((x - d) as i32, (y - d) as i32),
        (x, (y - r) as i32),
        ((x + d) as i32, (y - d) as i32),
        ((x + r) as i32, y),
    ]
}

/// Points of the outline of a ball.
pub fn ball_outline(x: i32, y: i32, r: i32) -> (pts: Vec<(i32, i32)>)
    requires
        0 <= r,
        2 * r <= i32::MAX,
        i32::MIN <= x - r,
        x + r <= i32::MAX,
        i32::MIN <= y - r,
        y + r <= i32::MAX,
    ensures
        pts@ == octagon_outline(x, y, r),
{
    let d = 2 * r / 3;
    assert(0 <= d <= r);
    let (left, right, top, bottom) = (x - r, x + r, y - r, y + r);
    let (near_left, near_right, near_top, near_bottom) = (x - d, x + d, y - d, y + d);
    let pts = vec![
        (right, y),
        (near_right, near_bottom),
        (x, bottom),
        (near_left, near_bottom),
        (left, y),
        (near_left, near_top),
        (x, top),
        (near_right, near_top),
        (right, y),
    ];
    assert(pts@ =~= octagon_outline(x, y, r));
    pts
}

/// The closed diamond drawn for the player centred on `(x, y)`: its right,
/// lower, left and upper corners, back to the first.
pub open spec fn diamond_outline(x: i32, y: i32) -> Seq<(i32, i32)> {
    let k = PLAYER_REACH;
    seq![
        ((x + k) as i32, y),
        (x, (y + k) as i32),
        ((x - k) as i32, y),
        (x, (y - k) as i32),
        ((x + k) as i32, y),
    ]
}

/// Points of the outline of the player.
pub fn player_outline(x: i32, y: i32) -> (pts: Vec<(i32, i32)>)
    requires
        i32::MIN <= x - PLAYER_REACH,
        x + PLAYER_REACH <= i32::MAX,
        i32::MIN <= y - PLAYER_REACH,
        y + PLAYER_REACH <= i32::MAX,
    ensures
        pts@ == diamond_outline(x, y),
{
    let k = PLAYER_REACH;
    let (left, right, top, bottom) = (x - k, x + k, y - k, y + k);
    let pts = vec![(right, y), (x, bottom), (left, y), (x, top), (right, y)];
    assert(pts@ =~= diamond_outline(x, y));
    pts
}

/// Top-left corner at which a label `width` by `height` pixels stands centred
/// on the cell at `row` and `col`.
pub fn cell_label_origin(row: usize, col: usize, width: u32, height: u32) -> (r: (i32, i32))
    requires
        row < GRID_SIZE,
        col < GRID_SIZE,
        width <= i32::MAX,
        height <= i32::MAX,
    ensures
        r.0 == col * BLOCK_SIZE + BLOCK_SIZE / 2 - width / 2,
        r.1 == row * BLOCK_SIZE + BLOCK_SIZE / 2 - height / 2,
{
    let (x, y) = block_origin(row, col);
    let half_w = (width as i32) / 2;
    let half_h = (height as i32) / 2;
    (x + BLOCK_SIZE / 2 - half_w, y + BLOCK_SIZE / 2 - half_h)
}

/// Left edge of a label `width` pixels wide set against the window's right
/// edge, with the margin kept.
pub fn right_label_x(width: u32) -> (r: u32)
    requires
        width + LABEL_MARGIN <= WINDOW_WIDTH,
    ensures
        r == WINDOW_WIDTH - width - LABEL_MARGIN,
{
    WINDOW_WIDTH - width - LABEL_MARGIN
}

} // verus!
