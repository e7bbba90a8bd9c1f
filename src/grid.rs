//! The grid of destructible blocks.

use vstd::prelude::*;
use crate::geometry::GRID_SIZE;

verus! {

/// A colour, as red, green, blue and opacity.
#[derive(Clone, Copy, Debug, PartialEq, Eq, Structural)]
pub struct Rgba {
    pub r: u8,
    pub g: u8,
    pub b: u8,
    pub a: u8,
}

/// The colour of the window's background, which an empty cell has.
pub open spec fn spec_background() -> Rgba {
    Rgba { r: 0, g: 0, b: 0, a: 255 }
}

/// The colour that every new block is drawn in.
pub open spec fn spec_block_color() -> Rgba {
    Rgba { r: 250, g: 100, b: 50, a: 255 }
}

/// The colour of the window's background.
pub fn background() -> (c: Rgba)
    ensures
        c == spec_background(),
{
    Rgba { r: 0, g: 0, b: 0, a: 255 }
}

/// The colour that every new block is drawn in.
pub fn block_color() -> (c: Rgba)
    ensures
        c == spec_block_color(),
{
    Rgba { r: 250, g: 100, b: 50, a: 255 }
}

/// One cell of the grid: a block while `count`, the hits it still takes, is
/// above zero.
#[derive(Clone, Copy, Debug, PartialEq, Eq, Structural)]
pub struct Block {
    pub count: usize,
    pub color: Rgba,
}

/// The row into which each round's new blocks come.
pub const SPAWN_ROW: usize = 1;

/// The row that, once a block reaches it, ends the game.
pub const LAST_ROW: usize = 15;

/// A cell that a fresh row holds: a block of `count` hits where `occupied`,
/// else an empty cell, in the block colour either way.
pub open spec fn spawned(occupied: bool, count: usize) -> Block {
    Block { count: if occupied { count } else { 0 }, color: spec_block_color() }
}

/// The grid after every row has moved one down: each row takes what the row
/// above held, the last row's blocks leave, and the top row keeps its blocks.
pub open spec fn shifted_down(g: Seq<Seq<Block>>) -> Seq<Seq<Block>> {
    seq![g[0]] + g.subrange(0, g.len() - 1)
}

/// The grid after a ball struck the cell at `row` and `col`: a block there
/// has one hit less; an empty cell stays empty.
pub open spec fn struck(g: Seq<Seq<Block>>, row: int, col: int) -> Seq<Seq<Block>> {
    let b = g[row][col];
    if b.count == 0 {
        g
    } else {
        g.update(row, g[row].update(col, Block { count: (b.count - 1) as usize, ..b }))
    }
}

/// Whether any block stands in the last row.
pub open spec fn reached_bottom(g: Seq<Seq<Block>>) -> bool {
    exists|c: int| 0 <= c < GRID_SIZE && (#[trigger] g[LAST_ROW as int][c]).count > 0
}

/// The blocks, row by row from the top.
pub struct Grid {
    rows: Vec<Vec<Block>>,
}

impl View for Grid {
    type V = Seq<Seq<Block>>;

    closed spec fn view(&self) -> Seq<Seq<Block>> {
        self.rows@.map_values(|row: Vec<Block>| row@)
    }
}

/// A row of empty cells.
fn empty_row() -> (row: Vec<Block>)
    ensures
        row@.len() == GRID_SIZE,
        forall|c: int| 0 <= c < GRID_SIZE ==> #[trigger] row@[c] == (Block {
            count: 0,
            color: spec_background(),
        }),
{
    let mut row: Vec<Block> = Vec::new();
    let mut c: usize = 0;
    while c < GRID_SIZE
        invariant
            c <= GRID_SIZE,
            row@.len() == c,
            forall|k: int| 0 <= k < c ==> #[trigger] row@[k] == (Block {
                count: 0,
                color: spec_background(),
            }),
        decreases GRID_SIZE - c,
    {
        row.push(Block { count: 0, color: background() });
        c = c + 1;
    }
    row
}

/// A copy of a row.
fn copy_row(row: &Vec<Block>) -> (r: Vec<Block>)
    ensures
        r@ == row@,
{
    let mut r: Vec<Block> = Vec::new();
    let mut c: usize = 0;
    while c < row.len()
        invariant
            c <= row@.len(),
            r@ == row@.subrange(0, c as int),
        decreases row@.len() - c,
    {
        r.push(row[c]);
        c = c + 1;
        assert(r@ =~= row@.subrange(0, c as int));
    }
    assert(row@.subrange(0, row@.len() as int) =~= row@);
    r
}

impl Grid {
    /// The grid has `GRID_SIZE` rows of `GRID_SIZE` cells.
    pub open spec fn wf(&self) -> bool {
        &&& self@.len() == GRID_SIZE
        &&& forall|r: int| 0 <= r < GRID_SIZE ==> (#[trigger] self@[r]).len() == GRID_SIZE
    }

    /// A grid of empty cells.
    pub fn new() -> (g: Grid)
        ensures
            g.wf(),
            forall|r: int, c: int|
                0 <= r < GRID_SIZE && 0 <= c < GRID_SIZE ==> #[trigger] g@[r][c] == (Block {
                    count: 0,
                    color: spec_background(),
                }),
    {
        let mut rows: Vec<Vec<Block>> = Vec::new();
        let mut r: usize = 0;
        while r < GRID_SIZE
            invariant
                r <= GRID_SIZE,
                rows@.len() == r,
                forall|k: int|
                    0 <= k < r ==> (#[trigger] rows@[k])@.len() == GRID_SIZE && forall|c: int|
                        0 <= c < GRID_SIZE ==> #[trigger] rows@[k]@[c] == (Block {
                            count: 0,
                            color: spec_background(),
                        }),
            decreases GRID_SIZE - r,
        {
            rows.push(empty_row());
            r = r + 1;
        }
        Grid { rows }
    }

    /// The cell at `row` and `col`.
    pub fn cell(&self, row: usize, col: usize) -> (b: Block)
        requires
            self.wf(),
            row < GRID_SIZE,
            col < GRID_SIZE,
        ensures
            b == self@[row as int][col as int],
    {
        assert(self.rows@[row as int]@ == self@[row as int]);
        self.rows[row][col]
    }

    /// A ball strikes the cell at `row` and `col`: a block there takes one
    /// hit. Returns whether that hit cleared it. An empty cell stays as it is.
    pub fn hit(&mut self, row: usize, col: usize) -> (cleared: bool)
        requires
            old(self).wf(),
            row < GRID_SIZE,
            col < GRID_SIZE,
        ensures
            final(self).wf(),
            final(self)@ == struck(old(self)@, row as int, col as int),
            cleared == (old(self)@[row as int][col as int].count == 1),
    {
        assert(self.rows@[row as int]@ == self@[row as int]);
        let count = self.rows[row][col].count;
        if count == 0 {
            return false;
        }
        self.rows[row][col].count = count - 1;
        assert(self@ =~= struck(old(self)@, row as int, col as int));
        count == 1
    }

    /// Whether a block stands in the last row.
    pub fn bottom_row_occupied(&self) -> (r: bool)
        requires
            self.wf(),
        ensures
            r == reached_bottom(self@),
    {
        let row = &self.rows[LAST_ROW];
        let mut c: usize = 0;
        while c < GRID_SIZE
            invariant
                c <= GRID_SIZE,
                self.wf(),
                row@ == self@[LAST_ROW as int],
                forall|k: int| 0 <= k < c ==> (#[trigger] self@[LAST_ROW as int][k]).count == 0,
            decreases GRID_SIZE - c,
        {
            if row[c].count > 0 {
                assert(self@[LAST_ROW as int][c as int].count > 0);
                return true;
            }
            c = c + 1;
        }
        false
    }

    /// Moves every row one down: the last row's blocks leave and the top row
    /// is kept as it was.
    pub fn shift_down(&mut self)
        requires
            old(self).wf(),
        ensures
            final(self).wf(),
            final(self)@ == shifted_down(old(self)@),
    {
        let top = copy_row(&self.rows[0]);
        self.rows.pop();
        self.rows.insert(0, top);
        assert(self@ =~= shifted_down(old(self)@));
    }

    /// Fills the spawn row: a block of `count` hits in each column where
    /// `occupied` says so, an empty cell elsewhere. Other rows are kept.
    pub fn fill_spawn_row(&mut self, occupied: &Vec<bool>, count: usize)
        requires
            old(self).wf(),
            occupied@.len() == GRID_SIZE,
        ensures
            final(self).wf(),
            final(self)@ == old(self)@.update(
                SPAWN_ROW as int,
                Seq::new(GRID_SIZE as nat, |c: int| spawned(occupied@[c], count)),
            ),
    {
        let mut c: usize = 0;
        while c < GRID_SIZE
            invariant
                c <= GRID_SIZE,
                occupied@.len() == GRID_SIZE,
                old(self).wf(),
                self.wf(),
                forall|r: int| 0 <= r < GRID_SIZE && r != SPAWN_ROW ==> #[trigger] self@[r] == old(self)@[r],
                forall|k: int| 0 <= k < c ==> #[trigger] self@[SPAWN_ROW as int][k] == spawned(occupied@[k], count),
            decreases GRID_SIZE - c,
        {
            assert(self.rows@[SPAWN_ROW as int]@ == self@[SPAWN_ROW as int]);
            let ghost before = self@;
            let n: usize = if occupied[c] { count } else { 0 };
            let b = Block { count: n, color: block_color() };
            self.rows[SPAWN_ROW][c] = b;
            assert(self@ =~= before.update(
                SPAWN_ROW as int,
                before[SPAWN_ROW as int].update(c as int, b),
            ));
            assert(self@[SPAWN_ROW as int][c as int] == spawned(occupied@[c as int], count));
            c = c + 1;
        }
        assert(self@[SPAWN_ROW as int] =~= Seq::new(
            GRID_SIZE as nat,
            |c: int| spawned(occupied@[c], count),
        ));
        assert(self@ =~= old(self)@.update(
            SPAWN_ROW as int,
            Seq::new(GRID_SIZE as nat, |c: int| spawned(occupied@[c], count)),
        ));
    }
}

} // verus!
