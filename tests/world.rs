use river_raid::entities::{Bullet, Enemy, Fuel, GameStatus, Location};
use river_raid::play::{Directive, TickOutcome};
use river_raid::terrain::SegmentDraw;
use river_raid::world::{Game2DMatrix, InitError};

fn open_game() -> Game2DMatrix {
    let mut g = Game2DMatrix::new(100, 40).unwrap();
    for r in 0..g.ground.len() {
        g.ground[r] = (40, 60);
    }
    g.initialized = true;
    g
}

#[test]
fn new_game_starts_mid_screen_near_the_bottom() {
    let g = Game2DMatrix::new(120, 50).unwrap();
    assert_eq!(g.player_i, 60);
    assert_eq!(g.player_j, 40);
    assert_eq!(g.screen_mid, 60);
    assert_eq!(g.ground.len(), 50);
    assert_eq!(g.gas, 1500);
    assert_eq!(g.score(), 0);
    assert_eq!(g.fuel(), 1500);
    assert_eq!(g.kill_count(), 0);
    assert_eq!(g.status(), GameStatus::ALIVE);
    assert!(!g.initialized);
    assert!(g.enemies.is_empty() && g.bullets.is_empty() && g.fuels.is_empty());
}

#[test]
fn too_small_screens_are_refused() {
    assert_eq!(Game2DMatrix::new(79, 50).unwrap_err(), InitError::TooNarrow);
    assert_eq!(Game2DMatrix::new(0, 0).unwrap_err(), InitError::TooNarrow);
    assert_eq!(Game2DMatrix::new(80, 2).unwrap_err(), InitError::TooShort);
    let g = Game2DMatrix::new(80, 3).unwrap();
    assert_eq!(g.player_j, 0);
    assert_eq!(Game2DMatrix::new(80, 9).unwrap().player_j, 0);
    assert_eq!(Game2DMatrix::new(80, 10).unwrap().player_j, 0);
    assert_eq!(Game2DMatrix::new(80, 11).unwrap().player_j, 1);
}

#[test]
fn generated_corridor_is_valid_and_banded() {
    for _ in 0..50 {
        let mut g = Game2DMatrix::new(100, 60).unwrap();
        g.initialize_ground();
        assert!(g.initialized);
        let mid = g.screen_mid;
        for r in 0..g.ground.len() {
            let (left, right) = g.ground[r];
            assert!(left < right && right < g.max_screen_i);
            assert!(mid - 40 <= left && left < mid && mid <= right && right < mid + 40);
        }
        // The first segment is at least five rows long.
        for r in 1..5 {
            assert_eq!(g.ground[r], g.ground[0]);
        }
    }
}

#[test]
fn generated_corridors_differ() {
    let mut seen = Vec::new();
    for _ in 0..20 {
        let mut g = Game2DMatrix::new(100, 30).unwrap();
        g.initialize_ground();
        seen.push(g.ground[0]);
    }
    assert!(seen.iter().any(|row| *row != seen[0]));
}

#[test]
fn advance_shifts_rows_down() {
    let mut g = open_game();
    for r in 0..g.ground.len() {
        g.ground[r] = (20 + r as u16, 70 + r as u16);
    }
    let before = g.ground.clone();
    g.advance(false, 3);
    for r in 1..g.ground.len() {
        assert_eq!(g.ground[r], before[r - 1]);
    }
    assert_eq!(g.ground[0], (17, 67));
}

#[test]
fn advance_widens_when_asked() {
    let mut g = open_game();
    g.advance(true, 4);
    assert_eq!(g.ground[0], (44, 64));
    assert_eq!(g.ground[1], (40, 60));
}

#[test]
fn advance_freezes_top_row_near_edges() {
    let mut g = open_game();
    let w = g.max_screen_i;
    g.ground[0] = (3, w - 2);
    for _ in 0..5 {
        g.advance(true, 3);
        assert_eq!(g.ground[0], (3, w - 2));
        assert_eq!(g.ground[1], (3, w - 2));
    }
}

#[test]
fn advance_ages_entities_and_counts() {
    let mut g = open_game();
    g.gas = 10;
    g.bullets.push(Bullet { location: Location { element_i: 10, element_j: 5 }, active: true, logo: "B".to_string() });
    g.bullets.push(Bullet { location: Location { element_i: 4, element_j: 5 }, active: true, logo: "B".to_string() });
    g.enemies.push(Enemy { location: Location { element_i: 2, element_j: 50 }, logo: "E".to_string() });
    g.fuels.push(Fuel { location: Location { element_i: 7, element_j: 45 }, logo: "F".to_string() });
    g.advance(false, 1);
    assert_eq!(g.bullets.len(), 1);
    assert_eq!(g.bullets[0].location, Location { element_i: 8, element_j: 5 });
    assert_eq!(g.enemies[0].location, Location { element_i: 3, element_j: 50 });
    assert_eq!(g.fuels[0].location, Location { element_i: 8, element_j: 45 });
    assert_eq!(g.score, 1);
    assert_eq!(g.gas, 10);
    g.advance(false, 1);
    assert_eq!(g.score, 2);
    assert_eq!(g.gas, 9);
}

#[test]
fn fuel_never_goes_below_zero() {
    let mut g = open_game();
    g.gas = 0;
    for _ in 0..4 {
        g.advance(false, 1);
        assert_eq!(g.gas, 0);
    }
}

#[test]
fn shift_ground_loc_keeps_the_corridor_valid() {
    let mut g = Game2DMatrix::new(100, 40).unwrap();
    g.initialize_ground();
    let mut tops = Vec::new();
    for k in 0..200 {
        let before = g.ground.clone();
        g.shift_ground_loc(k % 2 == 0);
        for r in 1..g.ground.len() {
            assert_eq!(g.ground[r], before[r - 1]);
        }
        let (left, right) = g.ground[0];
        assert!(left < right && right < g.max_screen_i);
        tops.push(g.ground[0]);
    }
    assert!(tops.iter().any(|t| *t != tops[0]));
}

#[test]
fn steering_moves_sideways_within_the_screen() {
    let mut g = open_game();
    g.player_i = 50;
    g.player_j = 30;
    g.steer(Directive::MoveRight);
    assert_eq!(g.player_i, 52);
    g.steer(Directive::MoveLeft);
    g.steer(Directive::MoveLeft);
    assert_eq!(g.player_i, 48);
    g.player_i = 1;
    g.steer(Directive::MoveLeft);
    assert_eq!(g.player_i, 1);
    g.player_i = 2;
    g.steer(Directive::MoveLeft);
    assert_eq!(g.player_i, 0);
    g.player_i = g.max_screen_i - 3;
    g.steer(Directive::MoveRight);
    assert_eq!(g.player_i, g.max_screen_i - 1);
    g.steer(Directive::MoveRight);
    assert_eq!(g.player_i, g.max_screen_i - 1);
    g.player_i = g.max_screen_i - 2;
    g.steer(Directive::MoveRight);
    assert_eq!(g.player_i, g.max_screen_i - 2);
}

#[test]
fn the_craft_row_is_fixed() {
    let mut g = open_game();
    let row = g.player_j;
    for d in [Directive::MoveUp, Directive::MoveDown, Directive::MoveLeft, Directive::MoveRight, Directive::Quit] {
        g.steer(d);
        assert_eq!(g.player_j, row);
    }
    g.steer(Directive::MoveUp);
    g.steer(Directive::MoveUp);
    assert_eq!(g.player_j, row);
    assert!(g.bullets.is_empty());
}

fn draw(left: u16, right: u16, length: u16) -> SegmentDraw {
    SegmentDraw { left, right, length }
}

#[test]
fn lay_ground_follows_the_draws() {
    let mut g = Game2DMatrix::new(100, 12).unwrap();
    let mut draws = vec![draw(40, 60, 6), draw(45, 55, 6)];
    while draws.len() < 12 {
        draws.push(draw(30, 70, 14));
    }
    g.lay_ground(5, &draws);
    assert!(g.initialized);
    for r in 0..6 {
        assert_eq!(g.ground[r], (40, 60));
    }
    for r in 6..12 {
        assert_eq!(g.ground[r], (45, 55));
    }
}

#[test]
fn lay_ground_can_open_a_one_row_segment() {
    let mut g = Game2DMatrix::new(100, 12).unwrap();
    let mut draws = vec![draw(40, 60, 5), draw(41, 61, 6), draw(42, 62, 6)];
    while draws.len() < 12 {
        draws.push(draw(30, 70, 14));
    }
    g.lay_ground(5, &draws);
    for r in 0..5 {
        assert_eq!(g.ground[r], (40, 60));
    }
    assert_eq!(g.ground[5], (41, 61));
    for r in 6..12 {
        assert_eq!(g.ground[r], (42, 62));
    }
}

#[test]
fn same_draws_give_the_same_river() {
    let draws: Vec<SegmentDraw> = (0..40u16).map(|k| draw(20 + k % 25, 60 + k % 25, 7 + k / 6)).collect();
    let mut a = Game2DMatrix::new(100, 40).unwrap();
    let mut b = Game2DMatrix::new(100, 40).unwrap();
    b.initialize_ground();
    b.ground[3] = (1, 2);
    a.lay_ground(6, &draws);
    b.lay_ground(6, &draws);
    assert_eq!(a.ground, b.ground);
}

#[test]
fn firing_adds_an_active_bullet_at_the_craft() {
    let mut g = open_game();
    g.steer(Directive::Fire);
    assert_eq!(g.bullets.len(), 1);
    assert_eq!(g.bullets[0].location, Location { element_i: g.player_j, element_j: g.player_i });
    assert!(g.bullets[0].active);
    assert_eq!(g.bullets[0].logo, "\u{1F525}");
}

#[test]
fn place_spawns_on_the_spawn_row() {
    let mut g = open_game();
    g.place(Some(45), Some(55));
    assert_eq!(g.enemies.len(), 1);
    assert_eq!(g.enemies[0].location, Location { element_i: 2, element_j: 45 });
    assert_eq!(g.fuels[0].location, Location { element_i: 2, element_j: 55 });
    g.place(None, None);
    assert_eq!(g.enemies.len(), 1);
    assert_eq!(g.fuels.len(), 1);
}

#[test]
fn spawn_picks_open_water() {
    let mut g = open_game();
    g.ground[2] = (30, 70);
    for _ in 0..100 {
        g.spawn(true, true);
    }
    assert_eq!(g.enemies.len(), 100);
    assert_eq!(g.fuels.len(), 100);
    for e in &g.enemies {
        assert!(30 <= e.location.element_j && e.location.element_j < 70);
    }
    assert!(g.enemies.iter().any(|e| e.location.element_j != 30));
    assert!(g.fuels.iter().any(|f| f.location.element_j != g.fuels[0].location.element_j));
}

#[test]
fn step_runs_a_whole_tick() {
    let mut g = open_game();
    g.player_i = 50;
    let out = g.step(Some(Directive::Fire), Some(50), None, false, 2);
    assert_eq!(out, TickOutcome { status: GameStatus::ALIVE, kills: 0 });
    assert_eq!(g.enemies[0].location, Location { element_i: 3, element_j: 50 });
    assert_eq!(g.bullets[0].location.element_i, g.player_j - 2);
    assert_eq!(g.score, 1);
    assert_eq!(g.ground[0], (38, 58));
}

#[test]
fn step_reports_kills_and_death() {
    let mut g = open_game();
    g.player_i = 50;
    g.bullets.push(Bullet { location: Location { element_i: 3, element_j: 50 }, active: true, logo: "B".to_string() });
    let out = g.step(None, Some(51), None, false, 1);
    assert_eq!(out.kills, 1);
    assert_eq!(g.enemy_killed, 1);
    let out = g.step(Some(Directive::MoveRight), None, None, false, 1);
    assert_eq!(out.status, GameStatus::ALIVE);
    g.player_i = 70;
    let out = g.step(None, None, None, false, 1);
    assert_eq!(out.status, GameStatus::DEATH);
    let out = g.step(Some(Directive::MoveLeft), None, None, false, 1);
    assert_eq!(out.status, GameStatus::DEATH);
}

#[test]
fn tick_plays_until_the_craft_dies() {
    let mut g = Game2DMatrix::new(100, 40).unwrap();
    g.initialize_ground();
    let mut last = TickOutcome { status: GameStatus::ALIVE, kills: 0 };
    for k in 0..3000 {
        let d = if k % 3 == 0 { Some(Directive::Fire) } else { None };
        last = g.tick(d, k % 10 == 0, k % 50 == 0);
        if last.status == GameStatus::DEATH {
            break;
        }
    }
    assert_eq!(last.status, g.game_staus);
    for r in 0..g.ground.len() {
        assert!(g.ground[r].0 < g.ground[r].1 && g.ground[r].1 < g.max_screen_i);
    }
}
