use pctan::game::{ball_to_remove, Game, Outcome};
use pctan::geometry::{
    ball_outline, block_origin, block_outline, cell_label_origin, player_outline, right_label_x,
    GRID_SIZE,
};
use pctan::grid::{block_color, background, Block, Grid, LAST_ROW, SPAWN_ROW};
use pctan::player::{BallState, Player, ShootState};
use pctan::score::{best_score, parse_high_score};

fn all(v: bool) -> Vec<bool> {
    vec![v; GRID_SIZE]
}

#[test]
fn parses_plain_number() {
    assert_eq!(parse_high_score("42"), 42);
    assert_eq!(parse_high_score("0"), 0);
    assert_eq!(parse_high_score("007"), 7);
}

#[test]
fn parses_leading_plus() {
    assert_eq!(parse_high_score("+15"), 15);
}

#[test]
fn rejects_what_is_not_a_number() {
    assert_eq!(parse_high_score(""), 0);
    assert_eq!(parse_high_score("+"), 0);
    assert_eq!(parse_high_score("-3"), 0);
    assert_eq!(parse_high_score("12a"), 0);
    assert_eq!(parse_high_score("42\n"), 0);
    assert_eq!(parse_high_score(" 42"), 0);
    assert_eq!(parse_high_score("++1"), 0);
}

#[test]
fn parses_largest_and_rejects_overflow() {
    let max = usize::MAX.to_string();
    assert_eq!(parse_high_score(&max), usize::MAX);
    let over = format!("{}0", max);
    assert_eq!(parse_high_score(&over), 0);
    let over_by_one = (usize::MAX as u128 + 1).to_string();
    assert_eq!(parse_high_score(&over_by_one), 0);
}

#[test]
fn best_score_keeps_larger() {
    assert_eq!(best_score(5, 3), 5);
    assert_eq!(best_score(3, 5), 5);
    assert_eq!(best_score(4, 4), 4);
}

#[test]
fn block_origin_is_column_then_row() {
    assert_eq!(block_origin(2, 3), (120, 80));
    assert_eq!(block_origin(15, 15), (600, 600));
}

#[test]
fn block_outline_closes_square() {
    assert_eq!(
        block_outline(40, 80),
        vec![(40, 80), (80, 80), (80, 120), (40, 120), (40, 80)]
    );
}

#[test]
fn ball_outline_is_octagon() {
    assert_eq!(
        ball_outline(100, 200, 10),
        vec![
            (110, 200),
            (106, 206),
            (100, 210),
            (94, 206),
            (90, 200),
            (94, 194),
            (100, 190),
            (106, 194),
            (110, 200)
        ]
    );
}

#[test]
fn player_outline_is_diamond() {
    assert_eq!(
        player_outline(320, 789),
        vec![(340, 789), (320, 809), (300, 789), (320, 769), (340, 789)]
    );
}

#[test]
fn labels_are_placed() {
    assert_eq!(cell_label_origin(0, 0, 10, 12), (15, 14));
    assert_eq!(cell_label_origin(1, 2, 21, 7), (90, 57));
    assert_eq!(right_label_x(100), 531);
}

#[test]
fn new_grid_is_empty() {
    let g = Grid::new();
    for r in 0..GRID_SIZE {
        for c in 0..GRID_SIZE {
            assert_eq!(g.cell(r, c), Block { count: 0, color: background() });
        }
    }
    assert!(!g.bottom_row_occupied());
}

#[test]
fn hit_counts_down_and_clears() {
    let mut g = Grid::new();
    let mut occ = all(false);
    occ[4] = true;
    g.fill_spawn_row(&occ, 2);
    assert_eq!(g.cell(SPAWN_ROW, 4), Block { count: 2, color: block_color() });
    assert_eq!(g.cell(SPAWN_ROW, 3), Block { count: 0, color: block_color() });
    assert!(!g.hit(SPAWN_ROW, 4));
    assert_eq!(g.cell(SPAWN_ROW, 4).count, 1);
    assert!(g.hit(SPAWN_ROW, 4));
    assert_eq!(g.cell(SPAWN_ROW, 4).count, 0);
    assert!(!g.hit(SPAWN_ROW, 4));
    assert_eq!(g.cell(SPAWN_ROW, 4).count, 0);
}

#[test]
fn shift_moves_rows_down_and_keeps_top() {
    let mut g = Grid::new();
    let mut occ = all(false);
    occ[0] = true;
    occ[15] = true;
    g.fill_spawn_row(&occ, 3);
    g.shift_down();
    assert_eq!(g.cell(SPAWN_ROW + 1, 0).count, 3);
    assert_eq!(g.cell(SPAWN_ROW + 1, 15).count, 3);
    assert_eq!(g.cell(SPAWN_ROW, 0), Block { count: 0, color: background() });
    assert_eq!(g.cell(0, 0), Block { count: 0, color: background() });
}

#[test]
fn block_reaching_last_row_is_seen() {
    let mut g = Grid::new();
    let mut occ = all(false);
    occ[7] = true;
    g.fill_spawn_row(&occ, 1);
    for _ in 0..(LAST_ROW - SPAWN_ROW - 1) {
        g.shift_down();
    }
    assert!(!g.bottom_row_occupied());
    g.shift_down();
    assert_eq!(g.cell(LAST_ROW, 7).count, 1);
    assert!(g.bottom_row_occupied());
    g.shift_down();
    assert!(!g.bottom_row_occupied());
}

#[test]
fn player_volley_cycle() {
    let mut p = Player::new();
    assert_eq!(p.ball_count, 1);
    assert_eq!(p.shoot_state, ShootState::WaitingToShoot);
    assert!(!p.launch_due(10));
    assert!(p.begin_volley());
    assert_eq!(p.shoot_state, ShootState::Shooting);
    assert!(!p.begin_volley());
    assert!(!p.launch_due(2));
    assert!(p.launch_due(3));
    p.record_launch();
    assert_eq!(p.balls_shot, 1);
    assert!(!p.launch_due(3));
    assert!(p.ball_landed());
    assert_eq!(p.ball_state, BallState::WaitingLastBall);
    assert!(!p.ball_landed());
    p.add_point();
    assert_eq!(p.score, 1);
    p.finish_volley();
    assert_eq!(p.ball_count, 2);
    assert_eq!(p.shoot_state, ShootState::WaitingToShoot);
    assert_eq!(p.ball_state, BallState::WaitingFirstBall);
}

#[test]
fn counters_hold_at_largest() {
    let mut p = Player::new();
    p.score = usize::MAX;
    p.add_point();
    assert_eq!(p.score, usize::MAX);
    p.ball_count = usize::MAX;
    p.finish_volley();
    assert_eq!(p.ball_count, usize::MAX);
}

#[test]
fn game_starts_with_given_row() {
    let mut occ = all(false);
    occ[2] = true;
    let g = Game::start(&occ);
    assert_eq!(g.grid.cell(SPAWN_ROW, 2), Block { count: 1, color: block_color() });
    assert_eq!(g.grid.cell(SPAWN_ROW, 3).count, 0);
    assert_eq!(g.grid.cell(0, 2).count, 0);
    assert_eq!(g.player, Player::new());
    assert_eq!(g.ball_timer, 0);
}

#[test]
fn random_game_row_has_single_hit_blocks() {
    let g = Game::new();
    for r in 0..GRID_SIZE {
        for c in 0..GRID_SIZE {
            let b = g.grid.cell(r, c);
            if r == SPAWN_ROW {
                assert!(b.count <= 1);
                assert_eq!(b.color, block_color());
            } else {
                assert_eq!(b.count, 0);
            }
        }
    }
}

#[test]
fn launches_wait_between_balls() {
    let mut g = Game::start(&all(false));
    g.player.ball_count = 2;
    assert!(!g.launch());
    assert!(g.aim_released());
    assert!(!g.launch());
    for _ in 0..3 {
        g.tick();
    }
    assert!(g.launch());
    assert_eq!(g.ball_timer, 0);
    assert_eq!(g.player.balls_shot, 1);
    g.tick();
    g.tick();
    assert!(!g.launch());
    g.tick();
    assert!(g.launch());
    assert_eq!(g.player.balls_shot, 2);
    for _ in 0..5 {
        g.tick();
    }
    assert!(!g.launch());
}

#[test]
fn strike_scores_on_clear() {
    let mut occ = all(false);
    occ[9] = true;
    let mut g = Game::start(&occ);
    assert!(!g.strike(SPAWN_ROW, 8));
    assert_eq!(g.player.score, 0);
    assert!(g.strike(SPAWN_ROW, 9));
    assert_eq!(g.player.score, 1);
    assert_eq!(g.grid.cell(SPAWN_ROW, 9).count, 0);
}

#[test]
fn round_advances_after_volley() {
    let mut occ = all(false);
    occ[1] = true;
    let mut g = Game::start(&occ);
    assert!(g.aim_released());
    g.ball_timer = 3;
    assert!(g.launch());
    assert_eq!(g.end_frame_with(1, &all(true)), Outcome::InFlight);
    assert_eq!(g.end_frame_with(0, &all(true)), Outcome::InFlight);
    assert!(g.ball_landed());
    assert_eq!(g.end_frame_with(1, &all(true)), Outcome::InFlight);
    let mut next = all(false);
    next[0] = true;
    assert_eq!(g.end_frame_with(0, &next), Outcome::NextRound);
    assert_eq!(g.player.ball_count, 2);
    assert_eq!(g.player.shoot_state, ShootState::WaitingToShoot);
    assert_eq!(g.player.ball_state, BallState::WaitingFirstBall);
    assert_eq!(g.grid.cell(SPAWN_ROW + 1, 1).count, 1);
    assert_eq!(g.grid.cell(SPAWN_ROW, 0), Block { count: 2, color: block_color() });
    assert_eq!(g.grid.cell(SPAWN_ROW, 1).count, 0);
}

#[test]
fn game_over_when_block_in_last_row() {
    let mut g = Game::start(&all(true));
    let mut rounds: usize = 0;
    loop {
        assert!(g.aim_released());
        g.ball_timer = 3;
        assert!(g.launch());
        g.ball_landed();
        let o = g.end_frame_with(0, &all(false));
        rounds += 1;
        if o == Outcome::GameOver {
            break;
        }
        assert_eq!(o, Outcome::NextRound);
        assert!(rounds < 100);
    }
    assert_eq!(rounds, LAST_ROW - SPAWN_ROW + 1);
    assert!(g.grid.bottom_row_occupied());
    assert_eq!(g.player.shoot_state, ShootState::WaitingToShoot);
}

#[test]
fn random_round_fills_spawn_row() {
    let mut g = Game::start(&all(false));
    assert!(g.aim_released());
    g.ball_timer = 3;
    assert!(g.launch());
    g.ball_landed();
    assert_eq!(g.end_frame(0), Outcome::NextRound);
    for c in 0..GRID_SIZE {
        let b = g.grid.cell(SPAWN_ROW, c);
        assert!(b.count == 0 || b.count == 2);
    }
    assert_eq!(g.end_frame(0), Outcome::InFlight);
}

#[test]
fn removes_last_landed_ball() {
    assert_eq!(ball_to_remove(&vec![]), None);
    assert_eq!(ball_to_remove(&vec![false, false]), None);
    assert_eq!(ball_to_remove(&vec![true, false, true, false]), Some(2));
    assert_eq!(ball_to_remove(&vec![true]), Some(0));
}
