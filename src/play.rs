use vstd::prelude::*;

use crate::entities::{Bullet, Enemy, Fuel, GameStatus, Location};
use crate::random::random_below;
use crate::rules::{resolved, sat_u32};
use crate::scroll::{scrolled, DELTA_END};
use crate::world::{Game2DMatrix, GameView};

verus! {

/// One input of a tick. The craft's row is fixed, so `MoveUp` and
/// `MoveDown` leave it where it is.
#[derive(Clone, Copy, Debug, PartialEq, Eq, Structural)]
pub enum Directive {
    MoveLeft,
    MoveRight,
    MoveUp,
    MoveDown,
    Fire,
    Quit,
}

/// Enemies and fuel appear on this row.
pub const SPAWN_ROW: u16 = 2;

/// Columns the craft moves per sideways step.
pub const SIDE_STEP: u16 = 2;

/// What a bullet looks like.
pub open spec fn bullet_glyph() -> Seq<char> {
    seq!['\u{1F525}']
}

/// What an enemy looks like.
pub open spec fn enemy_glyph() -> Seq<char> {
    seq!['\u{1F47E}']
}

/// What a fuel pickup looks like.
pub open spec fn fuel_glyph() -> Seq<char> {
    seq!['\u{26FD}']
}

/// The state after a directive that only moves the craft. The craft's row
/// is fixed: sideways steps of `SIDE_STEP` columns are taken when they keep
/// the craft on screen, and every other directive changes nothing here.
pub open spec fn moved(v: GameView, d: Directive) -> GameView {
    match d {
        Directive::MoveRight => if v.player_i + SIDE_STEP < v.max_screen_i {
            GameView { player_i: (v.player_i + SIDE_STEP) as u16, ..v }
        } else {
            v
        },
        Directive::MoveLeft => if v.player_i >= SIDE_STEP {
            GameView { player_i: (v.player_i - SIDE_STEP) as u16, ..v }
        } else {
            v
        },
        _ => v,
    }
}

/// `w` is `v` after directive `d`: firing adds one active bullet at the
/// craft; the rest only move the craft sideways (or not at all).
pub open spec fn steered(v: GameView, d: Directive, w: GameView) -> bool {
    match d {
        Directive::Fire => {
            &&& w == (GameView { bullets: v.bullets.push(w.bullets.last()), ..v })
            &&& fired_from(w.bullets.last(), v.player_i, v.player_j)
        },
        _ => w == moved(v, d),
    }
}

/// A bullet fired by a craft at column `col` of row `row`.
pub open spec fn fired_from(b: Bullet, col: u16, row: u16) -> bool {
    b.location == (Location { element_i: row, element_j: col }) && b.active && b.logo@ == bullet_glyph()
}

/// `e` is the enemy spawned at column `col`, if any.
pub open spec fn enemy_spawned_at(e: Option<Enemy>, col: Option<u16>) -> bool {
    match (e, col) {
        (None, None) => true,
        (Some(x), Some(c)) => x.location == (Location { element_i: SPAWN_ROW, element_j: c })
            && x.logo@ == enemy_glyph(),
        _ => false,
    }
}

/// `f` is the fuel pickup spawned at column `col`, if any.
pub open spec fn fuel_spawned_at(f: Option<Fuel>, col: Option<u16>) -> bool {
    match (f, col) {
        (None, None) => true,
        (Some(x), Some(c)) => x.location == (Location { element_i: SPAWN_ROW, element_j: c })
            && x.logo@ == fuel_glyph(),
        _ => false,
    }
}

/// `s` with `x` appended, if there is one.
pub open spec fn push_some<T>(s: Seq<T>, x: Option<T>) -> Seq<T> {
    match x {
        Some(y) => s.push(y),
        None => s,
    }
}

/// The state after spawning the given fuel pickup and enemy.
pub open spec fn spawned(v: GameView, enemy: Option<Enemy>, fuel: Option<Fuel>) -> GameView {
    GameView { fuels: push_some(v.fuels, fuel), enemies: push_some(v.enemies, enemy), ..v }
}

/// `w` is `v` after one whole tick: the directive, if any, the spawns at
/// the given columns, the resolution, then the scroll with the given bank
/// shift.
pub open spec fn ticked(
    v: GameView,
    d: Option<Directive>,
    enemy_col: Option<u16>,
    fuel_col: Option<u16>,
    widen: bool,
    delta: u16,
    w: GameView,
) -> bool {
    exists|s: GameView, e: Option<Enemy>, f: Option<Fuel>|
        {
            &&& match d {
                Some(x) => steered(v, x, s),
                None => s == v,
            }
            &&& enemy_spawned_at(e, enemy_col)
            &&& fuel_spawned_at(f, fuel_col)
            &&& w == scrolled(resolved(spawned(s, e, f)), widen, delta)
        }
}

/// What a tick reports to its caller.
#[derive(Clone, Copy, Debug, PartialEq, Eq, Structural)]
pub struct TickOutcome {
    /// The status after the tick.
    pub status: GameStatus,
    /// Enemies shot down during the tick.
    pub kills: usize,
}

/// Column `c` is open water on the spawn row.
pub open spec fn spawn_col_ok(v: GameView, c: Option<u16>) -> bool {
    match c {
        Some(x) => v.ground[SPAWN_ROW as int].0 <= x < v.ground[SPAWN_ROW as int].1,
        None => true,
    }
}

fn glyph(c: &str) -> (r: String)
    ensures
        r@ == c@,
{
    String::from_str(c)
}

impl Game2DMatrix {
    /// Applies one input directive.
    pub fn steer(&mut self, d: Directive)
        requires
            old(self)@.wf(),
        ensures
            final(self)@.wf(),
            steered(old(self)@, d, final(self)@),
    {
        let ghost v = self@;
        match d {
            Directive::MoveRight => {
                if (self.player_i as u32) + (SIDE_STEP as u32) < self.max_screen_i as u32 {
                    self.player_i = self.player_i + SIDE_STEP;
                }
            },
            Directive::MoveLeft => {
                if self.player_i >= SIDE_STEP {
                    self.player_i = self.player_i - SIDE_STEP;
                }
            },
            Directive::MoveUp | Directive::MoveDown | Directive::Quit => {},
            Directive::Fire => {
                let b = Bullet {
                    location: Location { element_i: self.player_j, element_j: self.player_i },
                    active: true,
                    logo: glyph("\u{1F525}"),
                };
                proof {
                    reveal_strlit("\u{1F525}");
                }
                assert(b.logo@ =~= bullet_glyph());
                assert(fired_from(b, v.player_i, v.player_j));
                self.bullets.push(b);
                assert(self@ =~= GameView { bullets: v.bullets.push(b), ..v });
                assert(self@.bullets.last() == b);
            },
        }
        proof {
            if !(d is Fire) {
                assert(self@ =~= moved(v, d));
            }
        }
    }

    /// Spawns a fuel pickup at column `fuel_col` and an enemy at column
    /// `enemy_col` of `SPAWN_ROW`, where given.
    pub fn place(&mut self, enemy_col: Option<u16>, fuel_col: Option<u16>)
        requires
            old(self)@.wf(),
        ensures
            final(self)@.wf(),
            exists|e: Option<Enemy>, f: Option<Fuel>|
                enemy_spawned_at(e, enemy_col) && fuel_spawned_at(f, fuel_col) && final(self)@ == spawned(old(self)@, e, f),
    {
        let ghost v = self@;
        let ghost mut e: Option<Enemy> = None;
        let ghost mut f: Option<Fuel> = None;
        if let Some(c) = fuel_col {
            let x = Fuel {
                location: Location { element_i: SPAWN_ROW, element_j: c },
                logo: glyph("\u{26FD}"),
            };
            proof {
                reveal_strlit("\u{26FD}");
                assert(x.logo@ =~= fuel_glyph());
                f = Some(x);
            }
            self.fuels.push(x);
        }
        if let Some(c) = enemy_col {
            let x = Enemy {
                location: Location { element_i: SPAWN_ROW, element_j: c },
                logo: glyph("\u{1F47E}"),
            };
            proof {
                reveal_strlit("\u{1F47E}");
                assert(x.logo@ =~= enemy_glyph());
                e = Some(x);
            }
            self.enemies.push(x);
        }
        assert(self@ =~= spawned(v, e, f));
    }

    /// Spawns the asked-for enemy and fuel pickup at random columns of open
    /// water on `SPAWN_ROW`.
    pub fn spawn(&mut self, show_enemy: bool, show_fuel: bool)
        requires
            old(self)@.wf(),
            old(self)@.initialized,
        ensures
            final(self)@.wf(),
            exists|enemy_col: Option<u16>, fuel_col: Option<u16>, e: Option<Enemy>, f: Option<Fuel>|
                {
                    &&& enemy_col is Some == show_enemy
                    &&& fuel_col is Some == show_fuel
                    &&& spawn_col_ok(old(self)@, enemy_col)
                    &&& spawn_col_ok(old(self)@, fuel_col)
                    &&& enemy_spawned_at(e, enemy_col)
                    &&& fuel_spawned_at(f, fuel_col)
                    &&& final(self)@ == spawned(old(self)@, e, f)
                },
    {
        let ghost v = self@;
        let water = self.ground[SPAWN_ROW as usize];
        assert(water == v.ground[SPAWN_ROW as int]);
        let fuel_col = if show_fuel {
            Some(random_below(water.0, water.1))
        } else {
            None
        };
        let enemy_col = if show_enemy {
            Some(random_below(water.0, water.1))
        } else {
            None
        };
        self.place(enemy_col, fuel_col);
    }

    /// One whole tick with its random outcomes given: the directive, if
    /// any, the spawns at the given columns, the resolution, and the scroll
    /// with bank shift `delta`.
    pub fn step(
        &mut self,
        d: Option<Directive>,
        enemy_col: Option<u16>,
        fuel_col: Option<u16>,
        widen: bool,
        delta: u16,
    ) -> (r: TickOutcome)
        requires
            old(self)@.wf(),
            1 <= delta < DELTA_END,
        ensures
            final(self)@.wf(),
            ticked(old(self)@, d, enemy_col, fuel_col, widen, delta, final(self)@),
            r.status == final(self).game_staus,
            final(self).enemy_killed == sat_u32(old(self).enemy_killed + r.kills),
    {
        if let Some(x) = d {
            self.steer(x);
        }
        let ghost s = self@;
        self.place(enemy_col, fuel_col);
        let ghost p = self@;
        let kills = self.reactions();
        self.advance(widen, delta);
        proof {
            let (e, f) = choose|e: Option<Enemy>, f: Option<Fuel>|
                enemy_spawned_at(e, enemy_col) && fuel_spawned_at(f, fuel_col) && p == spawned(s, e, f);
            assert(self@ == scrolled(resolved(spawned(s, e, f)), widen, delta));
        }
        TickOutcome { status: self.game_staus, kills }
    }

    /// One whole tick: the directive, if any, an enemy and a fuel pickup at
    /// random columns of open water where asked for, the resolution, and the
    /// scroll with a random widening choice and bank shift.
    pub fn tick(&mut self, d: Option<Directive>, spawn_enemy: bool, spawn_fuel: bool) -> (r: TickOutcome)
        requires
            old(self)@.wf(),
            old(self)@.initialized,
        ensures
            final(self)@.wf(),
            exists|enemy_col: Option<u16>, fuel_col: Option<u16>, widen: bool, delta: u16|
                {
                    &&& enemy_col is Some == spawn_enemy
                    &&& fuel_col is Some == spawn_fuel
                    &&& spawn_col_ok(old(self)@, enemy_col)
                    &&& spawn_col_ok(old(self)@, fuel_col)
                    &&& 1 <= delta < DELTA_END
                    &&& ticked(old(self)@, d, enemy_col, fuel_col, widen, delta, final(self)@)
                },
            r.status == final(self).game_staus,
            final(self).enemy_killed == sat_u32(old(self).enemy_killed + r.kills),
    {
        let water = self.ground[SPAWN_ROW as usize];
        let fuel_col = if spawn_fuel {
            Some(random_below(water.0, water.1))
        } else {
            None
        };
        let enemy_col = if spawn_enemy {
            Some(random_below(water.0, water.1))
        } else {
            None
        };
        let widen = random_below(0, 2) == 1;
        let delta = random_below(1, DELTA_END);
        self.step(d, enemy_col, fuel_col, widen, delta)
    }
}

} // verus!
