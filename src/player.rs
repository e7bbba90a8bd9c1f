//! The player's side of a volley: when balls leave, how many, and the score.

use vstd::prelude::*;

verus! {

/// Which ball of the current volley the player waits for.
#[derive(Clone, Copy, Debug, PartialEq, Eq, Structural)]
pub enum BallState {
    /// No ball of the volley has come back down yet.
    WaitingFirstBall,
    /// One has; the volley ends once the rest are back.
    WaitingLastBall,
}

/// Whether the player may aim or is firing a volley.
#[derive(Clone, Copy, Debug, PartialEq, Eq, Structural)]
pub enum ShootState {
    WaitingToShoot,
    Shooting,
}

/// Frames that pass between two balls of one volley.
pub const LAUNCH_INTERVAL: u64 = 3;

/// The player's counters and states.
#[derive(Clone, Copy, Debug, PartialEq, Eq, Structural)]
pub struct Player {
    pub ball_state: BallState,
    pub shoot_state: ShootState,
    /// Balls that a volley holds.
    pub ball_count: usize,
    /// Balls of the current volley already fired.
    pub balls_shot: usize,
    /// Blocks cleared.
    pub score: usize,
}

/// `n + 1`, held at the largest `usize`.
pub open spec fn bumped(n: usize) -> usize {
    if n == usize::MAX {
        n
    } else {
        (n + 1) as usize
    }
}

/// The player as a game starts: one ball, nothing fired, no score.
pub open spec fn spec_initial_player() -> Player {
    Player {
        ball_state: BallState::WaitingFirstBall,
        shoot_state: ShootState::WaitingToShoot,
        ball_count: 1,
        balls_shot: 0,
        score: 0,
    }
}

/// Whether the next ball of a volley leaves this frame.
pub open spec fn launch_is_due(p: Player, ball_timer: u64) -> bool {
    &&& p.shoot_state == ShootState::Shooting
    &&& ball_timer >= LAUNCH_INTERVAL
    &&& p.balls_shot != p.ball_count
}

/// The player once all balls of a volley are back: one ball more for the next
/// volley, which may be aimed.
pub open spec fn after_volley(p: Player) -> Player {
    Player {
        ball_state: BallState::WaitingFirstBall,
        shoot_state: ShootState::WaitingToShoot,
        ball_count: bumped(p.ball_count),
        ..p
    }
}

impl Player {
    /// No more balls are fired than a volley holds.
    pub open spec fn wf(&self) -> bool {
        self.balls_shot <= self.ball_count
    }

    /// The player as a game starts.
    pub fn new() -> (p: Player)
        ensures
            p == spec_initial_player(),
            p.wf(),
    {
        Player {
            ball_state: BallState::WaitingFirstBall,
            shoot_state: ShootState::WaitingToShoot,
            ball_count: 1,
            balls_shot: 0,
            score: 0,
        }
    }

    /// The player aims and releases: a volley begins unless one is under way.
    /// Returns whether it began.
    pub fn begin_volley(&mut self) -> (began: bool)
        requires
            old(self).wf(),
        ensures
            final(self).wf(),
            began == (old(self).shoot_state == ShootState::WaitingToShoot),
            began ==> *final(self) == (Player {
                shoot_state: ShootState::Shooting,
                ball_state: BallState::WaitingFirstBall,
                balls_shot: 0,
                ..*old(self)
            }),
            !began ==> *final(self) == *old(self),
    {
        if self.shoot_state == ShootState::WaitingToShoot {
            self.shoot_state = ShootState::Shooting;
            self.ball_state = BallState::WaitingFirstBall;
            self.balls_shot = 0;
            true
        } else {
            false
        }
    }

    /// Whether the next ball leaves this frame, `ball_timer` frames after the
    /// last one.
    pub fn launch_due(&self, ball_timer: u64) -> (r: bool)
        ensures
            r == launch_is_due(*self, ball_timer),
    {
        self.shoot_state == ShootState::Shooting && ball_timer >= LAUNCH_INTERVAL
            && self.balls_shot != self.ball_count
    }

    /// Counts one more ball of the volley as fired.
    pub fn record_launch(&mut self)
        requires
            old(self).wf(),
            old(self).balls_shot < old(self).ball_count,
        ensures
            final(self).wf(),
            *final(self) == (Player { balls_shot: (old(self).balls_shot + 1) as usize, ..*old(self) }),
    {
        self.balls_shot = self.balls_shot + 1;
    }

    /// A ball came back down. Returns whether it was the volley's first.
    pub fn ball_landed(&mut self) -> (first: bool)
        ensures
            first == (old(self).ball_state == BallState::WaitingFirstBall),
            *final(self) == (Player { ball_state: BallState::WaitingLastBall, ..*old(self) }),
    {
        let first = self.ball_state == BallState::WaitingFirstBall;
        self.ball_state = BallState::WaitingLastBall;
        first
    }

    /// One block more cleared.
    pub fn add_point(&mut self)
        ensures
            *final(self) == (Player { score: bumped(old(self).score), ..*old(self) }),
    {
        self.score = self.score.saturating_add(1);
    }

    /// All balls of the volley are back: the next volley holds one ball more
    /// and may be aimed.
    pub fn finish_volley(&mut self)
        requires
            old(self).wf(),
        ensures
            final(self).wf(),
            *final(self) == after_volley(*old(self)),
    {
        self.ball_count = self.ball_count.saturating_add(1);
        self.shoot_state = ShootState::WaitingToShoot;
        self.ball_state = BallState::WaitingFirstBall;
    }
}

} // verus!
