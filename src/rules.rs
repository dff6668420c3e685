use vstd::prelude::*;

use crate::entities::{Bullet, Enemy, Fuel, GameStatus};
use crate::world::GameView;

verus! {

/// Column reach of an enemy that rams the craft.
pub const ENEMY_REACH: u16 = 1;

/// Row reach of a bullet that strikes an enemy.
pub const HIT_ROWS: u16 = 2;

/// Column reach of a bullet that strikes an enemy.
pub const HIT_COLS: u16 = 2;

/// Column reach within which the craft takes a fuel pickup.
pub const FUEL_REACH: u16 = 2;

/// Fuel gained from one pickup.
pub const FUEL_BONUS: u32 = 30;

/// Rows above the bottom edge at which enemies and fuel leave the game.
pub const CULL_MARGIN: u16 = 3;

/// `a` lies in the inclusive window `[b - tol, b + tol]`.
pub open spec fn near(a: u16, b: u16, tol: u16) -> bool {
    b - tol <= a <= b + tol
}

/// Clamps a count into a `u32` counter.
pub open spec fn sat_u32(x: int) -> u32 {
    if x > u32::MAX {
        u32::MAX
    } else {
        x as u32
    }
}

/// The enemy rams a craft at column `col` of row `row`.
pub open spec fn rams(e: Enemy, col: u16, row: u16) -> bool {
    near(col, e.location.element_j, ENEMY_REACH) && e.location.element_i == row
}

/// The bullet is within striking range of the enemy (whether or not it is
/// still active).
pub open spec fn strikes(b: Bullet, e: Enemy) -> bool {
    near(b.location.element_i, e.location.element_i, HIT_ROWS) && near(
        b.location.element_j,
        e.location.element_j,
        HIT_COLS,
    )
}

/// A craft at column `col` of row `row` takes the fuel pickup.
pub open spec fn reaches(f: Fuel, col: u16, row: u16) -> bool {
    near(col, f.location.element_j, FUEL_REACH) && f.location.element_i == row
}

/// The first row at which enemies and fuel leave the game.
pub open spec fn cull_row(v: GameView) -> int {
    v.max_screen_j - CULL_MARGIN
}

/// The craft runs out of fuel or touches a bank.
pub open spec fn crashes(v: GameView) -> bool {
    v.gas == 0 || v.player_i <= v.player_banks().0 || v.player_i >= v.player_banks().1
}

/// Some enemy rams the craft.
pub open spec fn rammed(v: GameView) -> bool {
    exists|k: int| 0 <= k < v.enemies.len() && #[trigger] rams(v.enemies[k], v.player_i, v.player_j)
}

/// Enemy `k` is shot down: some active bullet strikes it and no enemy
/// before it (a bullet is spent on the first enemy it strikes).
pub open spec fn shot_down(enemies: Seq<Enemy>, bullets: Seq<Bullet>, k: int) -> bool {
    exists|i: int|
        0 <= i < bullets.len() && bullets[i].active && #[trigger] strikes(bullets[i], enemies[k])
            && forall|j: int| 0 <= j < k ==> !strikes(bullets[i], #[trigger] enemies[j])
}

/// One flag per enemy: whether it is shot down.
pub open spec fn shot_flags(enemies: Seq<Enemy>, bullets: Seq<Bullet>) -> Seq<bool> {
    Seq::new(enemies.len(), |k: int| shot_down(enemies, bullets, k))
}

/// The bullet strikes some enemy.
pub open spec fn spent(b: Bullet, enemies: Seq<Enemy>) -> bool {
    exists|k: int| 0 <= k < enemies.len() && #[trigger] strikes(b, enemies[k])
}

/// One flag per bullet: whether it strikes some enemy.
pub open spec fn spent_flags(enemies: Seq<Enemy>, bullets: Seq<Bullet>) -> Seq<bool> {
    Seq::new(bullets.len(), |i: int| spent(bullets[i], enemies))
}

/// The items among the first `n` of `s` whose flag in `keep` is set, in order.
pub open spec fn select<T>(s: Seq<T>, keep: Seq<bool>, n: int) -> Seq<T>
    decreases n,
{
    if n <= 0 {
        Seq::empty()
    } else if keep[n - 1] {
        select(s, keep, n - 1).push(s[n - 1])
    } else {
        select(s, keep, n - 1)
    }
}

/// How many of the first `n` flags are set.
pub open spec fn count(flags: Seq<bool>, n: int) -> nat
    decreases n,
{
    if n <= 0 {
        0
    } else if flags[n - 1] {
        count(flags, n - 1) + 1
    } else {
        count(flags, n - 1)
    }
}

/// The enemies that no bullet brings down, in order.
pub open spec fn unshot(enemies: Seq<Enemy>, bullets: Seq<Bullet>) -> Seq<Enemy> {
    select(enemies, shot_flags(enemies, bullets).map_values(|s: bool| !s), enemies.len() as int)
}

/// The bullets still flying after the pairing: active ones that struck nothing.
pub open spec fn still_flying(enemies: Seq<Enemy>) -> spec_fn(Bullet) -> bool {
    |b: Bullet| b.active && !spent(b, enemies)
}

/// An enemy above the bottom cull row.
pub open spec fn enemy_on_screen(floor: int) -> spec_fn(Enemy) -> bool {
    |e: Enemy| e.location.element_i < floor
}

/// A fuel pickup that is neither taken by the craft nor past the cull row.
pub open spec fn fuel_left(col: u16, row: u16, floor: int) -> spec_fn(Fuel) -> bool {
    |f: Fuel| !reaches(f, col, row) && f.location.element_i < floor
}

/// The fuel pickups that the craft takes.
pub open spec fn fuel_taken(col: u16, row: u16) -> spec_fn(Fuel) -> bool {
    |f: Fuel| reaches(f, col, row)
}

/// How many pickups the craft takes this tick.
pub open spec fn pickups(v: GameView) -> nat {
    v.fuels.filter(fuel_taken(v.player_i, v.player_j)).len()
}

/// The status after a resolution: once dead, always dead.
pub open spec fn next_status(v: GameView, crashed: bool, rammed: bool) -> GameStatus {
    if v.game_staus == GameStatus::DEATH || crashed || rammed {
        GameStatus::DEATH
    } else {
        GameStatus::ALIVE
    }
}

/// The state after one resolution of collisions and pickups:
/// - the craft dies when out of fuel, on a bank, or rammed by an enemy;
/// - each active bullet is spent on the first enemy it strikes, which is
///   shot down and counted as a kill; spent and inactive bullets are removed;
/// - every pickup the craft reaches adds `FUEL_BONUS` fuel and is removed;
/// - enemies and fuel at or below the cull row are removed.
pub open spec fn resolved(v: GameView) -> GameView {
    let floor = cull_row(v);
    GameView {
        game_staus: next_status(v, crashes(v), rammed(v)),
        enemies: unshot(v.enemies, v.bullets).filter(enemy_on_screen(floor)),
        bullets: v.bullets.filter(still_flying(v.enemies)),
        fuels: v.fuels.filter(fuel_left(v.player_i, v.player_j, floor)),
        gas: sat_u32(v.gas + FUEL_BONUS * pickups(v)),
        enemy_killed: sat_u32(
            v.enemy_killed + count(shot_flags(v.enemies, v.bullets), v.enemies.len() as int),
        ),
        ..v
    }
}

} // verus!
