//! One game: the grid, the player and the rounds between volleys.

use vstd::prelude::*;
use crate::geometry::GRID_SIZE;
use crate::grid::{
    Block, Grid, SPAWN_ROW, reached_bottom, shifted_down, spawned, spec_background, struck,
};
use crate::player::{
    BallState, Player, ShootState, after_volley, bumped, launch_is_due, spec_initial_player,
};

verus! {

/// Relies on rand::random: a value drawn from the thread-local generator,
/// here a fair coin for each cell of a new row. Nothing is known of the draw.
pub assume_specification<T>[ rand::random::<T> ]() -> (r: T)
    where
        rand::distributions::Standard: rand::distributions::Distribution<T>,
;

/// What a frame's end brings.
#[derive(Clone, Copy, Debug, PartialEq, Eq, Structural)]
pub enum Outcome {
    /// The volley goes on.
    InFlight,
    /// The volley is over, the grid moved down and a new row came in.
    NextRound,
    /// The volley is over and a block stands in the last row.
    GameOver,
}

/// A row that chance filled: in each column a block of `count` hits or an
/// empty cell, in the block colour.
pub open spec fn is_spawn_row(row: Seq<Block>, count: usize) -> bool {
    &&& row.len() == GRID_SIZE
    &&& forall|c: int|
        0 <= c < GRID_SIZE ==> #[trigger] row[c] == spawned(true, count) || row[c] == spawned(
            false,
            count,
        )
}

/// The grid of a new game: empty but for the spawn row, which `occupied`
/// fills with blocks of one hit.
pub open spec fn initial_grid(occupied: Seq<bool>) -> Seq<Seq<Block>> {
    Seq::new(
        GRID_SIZE as nat,
        |r: int|
            if r == SPAWN_ROW {
                Seq::new(GRID_SIZE as nat, |c: int| spawned(occupied[c], 1))
            } else {
                Seq::new(GRID_SIZE as nat, |c: int| Block { count: 0, color: spec_background() })
            },
    )
}

/// Whether this frame ends the volley: no ball is left in flight and one has
/// come back.
pub open spec fn volley_ends(p: Player, in_flight: usize) -> bool {
    in_flight == 0 && p.ball_state == BallState::WaitingLastBall
}

/// The state of a game.
pub struct Game {
    pub player: Player,
    pub grid: Grid,
    /// Frames since the last ball of the volley left.
    pub ball_timer: u64,
}

/// One coin for each column.
fn draw_occupancy() -> (occupied: Vec<bool>)
    ensures
        occupied@.len() == GRID_SIZE,
{
    let mut occupied: Vec<bool> = Vec::new();
    let mut c: usize = 0;
    while c < GRID_SIZE
        invariant
            c <= GRID_SIZE,
            occupied@.len() == c,
        decreases GRID_SIZE - c,
    {
        occupied.push(rand::random::<bool>());
        c = c + 1;
    }
    occupied
}

impl Game {
    /// The grid is square and the player fires no more than a volley holds.
    pub open spec fn wf(&self) -> bool {
        self.grid.wf() && self.player.wf()
    }

    /// A new game whose spawn row holds a block of one hit wherever
    /// `occupied` says so.
    pub fn start(occupied: &Vec<bool>) -> (g: Game)
        requires
            occupied@.len() == GRID_SIZE,
        ensures
            g.wf(),
            g.player == spec_initial_player(),
            g.ball_timer == 0,
            g.grid@ == initial_grid(occupied@),
    {
        let mut grid = Grid::new();
        grid.fill_spawn_row(occupied, 1);
        assert forall|r: int| 0 <= r < GRID_SIZE implies #[trigger] grid@[r] =~= initial_grid(
            occupied@,
        )[r] by {}
        assert(grid@ =~= initial_grid(occupied@));
        Game { player: Player::new(), grid, ball_timer: 0 }
    }

    /// A new game whose spawn row chance fills with blocks of one hit.
    pub fn new() -> (g: Game)
        ensures
            g.wf(),
            g.player == spec_initial_player(),
            g.ball_timer == 0,
            is_spawn_row(g.grid@[SPAWN_ROW as int], 1),
            forall|r: int| 0 <= r < GRID_SIZE && r != SPAWN_ROW ==> #[trigger] g.grid@[r] == Seq::new(
                GRID_SIZE as nat,
                |c: int| Block { count: 0, color: spec_background() },
            ),
    {
        let occupied = draw_occupancy();
        let g = Game::start(&occupied);
        assert(is_spawn_row(g.grid@[SPAWN_ROW as int], 1));
        g
    }

    /// The player releases an aim: a volley begins unless one is under way.
    /// Returns whether it began.
    pub fn aim_released(&mut self) -> (began: bool)
        requires
            old(self).wf(),
        ensures
            final(self).wf(),
            began == (old(self).player.shoot_state == ShootState::WaitingToShoot),
            began ==> final(self).player == (Player {
                shoot_state: ShootState::Shooting,
                ball_state: BallState::WaitingFirstBall,
                balls_shot: 0,
                ..old(self).player
            }),
            !began ==> final(self).player == old(self).player,
            final(self).grid@ == old(self).grid@,
            final(self).ball_timer == old(self).ball_timer,
    {
        self.player.begin_volley()
    }

    /// Decides whether a ball leaves this frame; if so, counts it and starts
    /// the wait for the next.
    pub fn launch(&mut self) -> (launched: bool)
        requires
            old(self).wf(),
        ensures
            final(self).wf(),
            launched == launch_is_due(old(self).player, old(self).ball_timer),
            launched ==> final(self).player == (Player {
                balls_shot: (old(self).player.balls_shot + 1) as usize,
                ..old(self).player
            }) && final(self).ball_timer == 0,
            !launched ==> final(self).player == old(self).player && final(self).ball_timer
                == old(self).ball_timer,
            final(self).grid@ == old(self).grid@,
    {
        if self.player.launch_due(self.ball_timer) {
            self.player.record_launch();
            self.ball_timer = 0;
            true
        } else {
            false
        }
    }

    /// One frame has passed.
    pub fn tick(&mut self)
        ensures
            final(self).ball_timer == if old(self).ball_timer == u64::MAX {
                u64::MAX
            } else {
                (old(self).ball_timer + 1) as u64
            },
            final(self).player == old(self).player,
            final(self).grid@ == old(self).grid@,
    {
        self.ball_timer = self.ball_timer.saturating_add(1);
    }

    /// A ball struck the cell at `row` and `col`: a block there takes a hit,
    /// and the player scores when that clears it. Returns whether it did.
    pub fn strike(&mut self, row: usize, col: usize) -> (cleared: bool)
        requires
            old(self).wf(),
            row < GRID_SIZE,
            col < GRID_SIZE,
        ensures
            final(self).wf(),
            cleared == (old(self).grid@[row as int][col as int].count == 1),
            final(self).grid@ == struck(old(self).grid@, row as int, col as int),
            cleared ==> final(self).player == (Player {
                score: bumped(old(self).player.score),
                ..old(self).player
            }),
            !cleared ==> final(self).player == old(self).player,
            final(self).ball_timer == old(self).ball_timer,
    {
        let cleared = self.grid.hit(row, col);
        if cleared {
            self.player.add_point();
        }
        cleared
    }

    /// A ball came back down. Returns whether it was the volley's first,
    /// whose place the player moves to once the volley ends.
    pub fn ball_landed(&mut self) -> (first: bool)
        requires
            old(self).wf(),
        ensures
            final(self).wf(),
            first == (old(self).player.ball_state == BallState::WaitingFirstBall),
            final(self).player == (Player {
                ball_state: BallState::WaitingLastBall,
                ..old(self).player
            }),
            final(self).grid@ == old(self).grid@,
            final(self).ball_timer == old(self).ball_timer,
    {
        self.player.ball_landed()
    }

    /// The end of a frame with `in_flight` balls still moving. Once the volley
    /// is over the player readies the next one; then the game is lost if a
    /// block stands in the last row, and otherwise the grid moves down and
    /// the spawn row takes a block of the new volley's size wherever
    /// `occupied` says so.
    pub fn end_frame_with(&mut self, in_flight: usize, occupied: &Vec<bool>) -> (o: Outcome)
        requires
            old(self).wf(),
            occupied@.len() == GRID_SIZE,
        ensures
            final(self).wf(),
            final(self).ball_timer == old(self).ball_timer,
            !volley_ends(old(self).player, in_flight) ==> o == Outcome::InFlight && final(self).player == old(self).player && final(self).grid@ == old(self).grid@,
            volley_ends(old(self).player, in_flight) ==> final(self).player == after_volley(
                old(self).player,
            ),
            volley_ends(old(self).player, in_flight) && reached_bottom(old(self).grid@) ==> o
                == Outcome::GameOver && final(self).grid@ == old(self).grid@,
            volley_ends(old(self).player, in_flight) && !reached_bottom(old(self).grid@) ==> o
                == Outcome::NextRound && final(self).grid@ == shifted_down(old(self).grid@).update(
                SPAWN_ROW as int,
                Seq::new(
                    GRID_SIZE as nat,
                    |c: int| spawned(occupied@[c], final(self).player.ball_count),
                ),
            ),
    {
        if !(in_flight == 0 && self.player.ball_state == BallState::WaitingLastBall) {
            return Outcome::InFlight;
        }
        self.player.finish_volley();
        if self.grid.bottom_row_occupied() {
            return Outcome::GameOver;
        }
        self.grid.shift_down();
        self.grid.fill_spawn_row(occupied, self.player.ball_count);
        Outcome::NextRound
    }

    /// The end of a frame, as `end_frame_with`, where chance decides which
    /// cells of a new row hold a block.
    pub fn end_frame(&mut self, in_flight: usize) -> (o: Outcome)
        requires
            old(self).wf(),
        ensures
            final(self).wf(),
            final(self).ball_timer == old(self).ball_timer,
            !volley_ends(old(self).player, in_flight) ==> o == Outcome::InFlight && final(self).player == old(self).player && final(self).grid@ == old(self).grid@,
            volley_ends(old(self).player, in_flight) ==> final(self).player == after_volley(
                old(self).player,
            ),
            volley_ends(old(self).player, in_flight) && reached_bottom(old(self).grid@) ==> o
                == Outcome::GameOver && final(self).grid@ == old(self).grid@,
            volley_ends(old(self).player, in_flight) && !reached_bottom(old(self).grid@) ==> o
                == Outcome::NextRound && final(self).grid@.len() == GRID_SIZE && is_spawn_row(
                final(self).grid@[SPAWN_ROW as int],
                final(self).player.ball_count,
            ) && forall|r: int|
                0 <= r < GRID_SIZE && r != SPAWN_ROW ==> #[trigger] final(self).grid@[r]
                    == shifted_down(old(self).grid@)[r],
    {
        if !(in_flight == 0 && self.player.ball_state == BallState::WaitingLastBall) {
            return Outcome::InFlight;
        }
        let occupied = draw_occupancy();
        let o = self.end_frame_with(in_flight, &occupied);
        assert(o == Outcome::NextRound ==> is_spawn_row(
            self.grid@[SPAWN_ROW as int],
            self.player.ball_count,
        ));
        o
    }
}

/// The ball that leaves play this frame: the last of those that came back down.
pub fn ball_to_remove(landed: &Vec<bool>) -> (r: Option<usize>)
    ensures
        r is None ==> forall|i: int| 0 <= i < landed@.len() ==> !#[trigger] landed@[i],
        r matches Some(i) ==> i < landed@.len() && landed@[i as int] && forall|k: int|
            i < k < landed@.len() ==> !#[trigger] landed@[k],
{
    let mut found: Option<usize> = None;
    let mut i: usize = 0;
    while i < landed.len()
        invariant
            i <= landed@.len(),
            found is None ==> forall|k: int| 0 <= k < i ==> !#[trigger] landed@[k],
            found matches Some(j) ==> j < i && landed@[j as int] && forall|k: int|
                j < k < i ==> !#[trigger] landed@[k],
        decreases landed@.len() - i,
    {
        if landed[i] {
            found = Some(i);
        }
        i = i + 1;
    }
    found
}

} // verus!
