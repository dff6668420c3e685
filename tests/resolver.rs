use river_raid::entities::{Bullet, Enemy, Fuel, GameStatus, Location};
use river_raid::resolve::{add_bonus, add_kills, within};
use river_raid::world::Game2DMatrix;

fn open_game() -> Game2DMatrix {
    let mut g = Game2DMatrix::new(100, 40).unwrap();
    for r in 0..g.ground.len() {
        g.ground[r] = (40, 60);
    }
    g.initialized = true;
    g.player_i = 50;
    g
}

fn enemy(row: u16, col: u16) -> Enemy {
    Enemy { location: Location { element_i: row, element_j: col }, logo: "E".to_string() }
}

fn bullet(row: u16, col: u16) -> Bullet {
    Bullet { location: Location { element_i: row, element_j: col }, active: true, logo: "B".to_string() }
}

fn fuel(row: u16, col: u16) -> Fuel {
    Fuel { location: Location { element_i: row, element_j: col }, logo: "F".to_string() }
}

#[test]
fn craft_inside_banks_survives_and_outside_dies() {
    let mut g = open_game();
    let row = g.player_j as usize;
    g.ground[row] = (40, 60);
    g.player_i = 50;
    g.reactions();
    assert_eq!(g.game_staus, GameStatus::ALIVE);
    g.player_i = 39;
    g.reactions();
    assert_eq!(g.game_staus, GameStatus::DEATH);
}

#[test]
fn craft_on_a_bank_dies() {
    let mut g = open_game();
    g.player_i = 40;
    g.reactions();
    assert_eq!(g.game_staus, GameStatus::DEATH);
    let mut g = open_game();
    g.player_i = 60;
    g.reactions();
    assert_eq!(g.game_staus, GameStatus::DEATH);
}

#[test]
fn bullet_on_enemy_removes_both() {
    let mut g = open_game();
    g.bullets.push(bullet(10, 50));
    g.enemies.push(enemy(10, 50));
    let kills = g.reactions();
    assert_eq!(kills, 1);
    assert!(g.enemies.is_empty());
    assert!(g.bullets.is_empty());
    assert_eq!(g.enemy_killed, 1);
    assert_eq!(g.game_staus, GameStatus::ALIVE);
}

#[test]
fn bullet_is_spent_on_the_first_enemy_only() {
    let mut g = open_game();
    g.bullets.push(bullet(10, 50));
    g.enemies.push(enemy(10, 50));
    g.enemies.push(enemy(11, 51));
    assert_eq!(g.reactions(), 1);
    assert_eq!(g.enemies, vec![enemy(11, 51)]);
    assert!(g.bullets.is_empty());
}

#[test]
fn two_bullets_on_one_enemy_kill_it_once() {
    let mut g = open_game();
    g.bullets.push(bullet(10, 50));
    g.bullets.push(bullet(11, 49));
    g.enemies.push(enemy(10, 50));
    assert_eq!(g.reactions(), 1);
    assert_eq!(g.enemy_killed, 1);
    assert!(g.enemies.is_empty());
    assert!(g.bullets.is_empty());
}

#[test]
fn bullet_out_of_reach_keeps_flying() {
    let mut g = open_game();
    g.bullets.push(bullet(10, 50));
    g.enemies.push(enemy(10, 53));
    g.enemies.push(enemy(13, 50));
    assert_eq!(g.reactions(), 0);
    assert_eq!(g.enemies.len(), 2);
    assert_eq!(g.bullets, vec![bullet(10, 50)]);
}

#[test]
fn inactive_bullet_hits_nothing_and_leaves() {
    let mut g = open_game();
    let mut b = bullet(10, 50);
    b.active = false;
    g.bullets.push(b);
    g.enemies.push(enemy(10, 50));
    assert_eq!(g.reactions(), 0);
    assert_eq!(g.enemies.len(), 1);
    assert!(g.bullets.is_empty());
}

#[test]
fn fuel_pickup_adds_bonus_and_leaves() {
    let mut g = open_game();
    g.gas = 30;
    let (row, col) = (g.player_j, g.player_i);
    g.fuels.push(fuel(row, col));
    g.reactions();
    assert_eq!(g.gas, 60);
    assert!(g.fuels.is_empty());
    assert_eq!(g.game_staus, GameStatus::ALIVE);
}

#[test]
fn fuel_pickup_within_two_columns() {
    let mut g = open_game();
    g.gas = 30;
    let (row, col) = (g.player_j, g.player_i);
    g.fuels.push(fuel(row, col + 2));
    g.fuels.push(fuel(row, col - 3));
    g.reactions();
    assert_eq!(g.gas, 60);
    assert_eq!(g.fuels, vec![fuel(row, col - 3)]);
}

#[test]
fn enemy_near_bottom_is_culled() {
    let mut g = open_game();
    let h = g.max_screen_j;
    g.enemies.push(enemy(h - 2, 10));
    g.enemies.push(enemy(h - 3, 10));
    g.enemies.push(enemy(h - 4, 10));
    g.fuels.push(fuel(h - 3, 10));
    g.fuels.push(fuel(h - 4, 10));
    g.reactions();
    assert_eq!(g.enemies, vec![enemy(h - 4, 10)]);
    assert_eq!(g.fuels, vec![fuel(h - 4, 10)]);
}

#[test]
fn enemy_ramming_the_craft_is_fatal() {
    let mut g = open_game();
    let (row, col) = (g.player_j, g.player_i);
    g.enemies.push(enemy(row, col + 1));
    g.reactions();
    assert_eq!(g.game_staus, GameStatus::DEATH);
    let mut g = open_game();
    g.enemies.push(enemy(row, col + 2));
    g.enemies.push(enemy(row + 1, col));
    g.reactions();
    assert_eq!(g.game_staus, GameStatus::ALIVE);
}

#[test]
fn empty_tank_is_fatal() {
    let mut g = open_game();
    g.gas = 0;
    g.reactions();
    assert_eq!(g.game_staus, GameStatus::DEATH);
}

#[test]
fn death_is_final() {
    let mut g = open_game();
    g.game_staus = GameStatus::DEATH;
    g.reactions();
    assert_eq!(g.game_staus, GameStatus::DEATH);
    g.multi_reactions();
    assert_eq!(g.game_staus, GameStatus::DEATH);
}

fn busy_game() -> Game2DMatrix {
    let mut g = open_game();
    let (row, col) = (g.player_j, g.player_i);
    g.bullets.push(bullet(10, 50));
    g.bullets.push(bullet(20, 45));
    g.bullets.push(bullet(5, 58));
    g.enemies.push(enemy(10, 51));
    g.enemies.push(enemy(9, 50));
    g.enemies.push(enemy(row + 8, 44));
    g.enemies.push(enemy(21, 44));
    g.fuels.push(fuel(row, col - 1));
    g.fuels.push(fuel(row + 7, 50));
    g.fuels.push(fuel(3, 55));
    g.gas = 7;
    g
}

#[test]
fn sequential_and_concurrent_resolvers_agree() {
    let mut a = busy_game();
    let mut b = busy_game();
    let ka = a.reactions();
    let kb = b.multi_reactions();
    assert_eq!(ka, 2);
    assert_eq!(ka, kb);
    assert_eq!(a.game_staus, b.game_staus);
    assert_eq!(a.score, b.score);
    assert_eq!(a.gas, b.gas);
    assert_eq!(a.gas, 37);
    assert_eq!(a.enemy_killed, b.enemy_killed);
    assert_eq!(a.enemies, b.enemies);
    assert_eq!(a.bullets, b.bullets);
    assert_eq!(a.fuels, b.fuels);
    assert_eq!(a.enemies.len(), 1);
    assert_eq!(a.bullets, vec![bullet(5, 58)]);
    assert_eq!(a.fuels, vec![fuel(3, 55)]);
}

#[test]
fn findings_merge_like_the_sequential_resolver() {
    let mut a = busy_game();
    let mut b = busy_game();
    a.reactions();
    let f = b.find();
    assert_eq!(f.taken, 1);
    assert_eq!(f.shot, vec![true, false, false, true]);
    b.apply_findings(f);
    assert_eq!(a.enemies, b.enemies);
    assert_eq!(a.bullets, b.bullets);
    assert_eq!(a.fuels, b.fuels);
    assert_eq!(a.gas, b.gas);
    assert_eq!(a.enemy_killed, b.enemy_killed);
}

#[test]
fn windows_saturate_at_the_edges() {
    assert!(within(0, 1, 2));
    assert!(within(3, 1, 2));
    assert!(!within(4, 1, 2));
    assert!(within(65535, 65534, 2));
    assert!(!within(65531, 65534, 2));
}

#[test]
fn counters_saturate() {
    assert_eq!(add_bonus(30, 1), 60);
    assert_eq!(add_bonus(u32::MAX - 10, 1), u32::MAX);
    assert_eq!(add_kills(5, 3), 8);
    assert_eq!(add_kills(u32::MAX - 1, 3), u32::MAX);
}
