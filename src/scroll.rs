use vstd::prelude::*;

use crate::entities::{Bullet, Enemy, Fuel, Location};
use crate::random::random_below;
use crate::resolve::lemma_take_push;
use crate::world::{Game2DMatrix, GameView};

verus! {

/// Rows a bullet climbs per tick.
pub const BULLET_STEP: u16 = 2;

/// Bullets above this row leave the game.
pub const BULLET_CEILING: u16 = 3;

/// Fuel burns by one every `BURN_PERIOD` ticks.
pub const BURN_PERIOD: u32 = 2;

/// The bank shift of a tick lies in `[1, DELTA_END)`.
pub const DELTA_END: u16 = 6;

/// The river only widens while its right bank stays this far from the edge.
pub const EDGE_MARGIN: u16 = 5;

/// `a + b`, clamped to `u16::MAX`.
pub open spec fn sat_add_u16(a: u16, b: u16) -> u16 {
    if a + b > u16::MAX {
        u16::MAX
    } else {
        (a + b) as u16
    }
}

/// `a - b`, clamped to zero.
pub open spec fn sat_sub_u16(a: u16, b: u16) -> u16 {
    if a >= b {
        (a - b) as u16
    } else {
        0
    }
}

/// A bullet after one tick of climbing.
pub open spec fn climbed(b: Bullet) -> Bullet {
    Bullet {
        location: Location {
            element_i: sat_sub_u16(b.location.element_i, BULLET_STEP),
            ..b.location
        },
        ..b
    }
}

/// A bullet still below the ceiling.
pub open spec fn below_ceiling() -> spec_fn(Bullet) -> bool {
    |b: Bullet| b.location.element_i >= BULLET_CEILING
}

/// An enemy after sinking one row.
pub open spec fn sunk_enemy(e: Enemy) -> Enemy {
    Enemy { location: Location { element_i: sat_add_u16(e.location.element_i, 1), ..e.location }, ..e }
}

/// A fuel pickup after sinking one row.
pub open spec fn sunk_fuel(f: Fuel) -> Fuel {
    Fuel { location: Location { element_i: sat_add_u16(f.location.element_i, 1), ..f.location }, ..f }
}

/// The banks of the new top row, computed from the row below it (the old
/// top row): widened by `delta` when asked and the right bank is far enough
/// from the edge, else narrowed by `delta` when the left bank allows it,
/// else unchanged.
pub open spec fn next_top(below: (u16, u16), width: u16, widen: bool, delta: u16) -> (u16, u16) {
    if widen && below.1 < width - EDGE_MARGIN {
        ((below.0 + delta) as u16, (below.1 + delta) as u16)
    } else if below.0 > delta {
        ((below.0 - delta) as u16, (below.1 - delta) as u16)
    } else {
        below
    }
}

/// The river after moving one row down: row `r` takes the old row `r - 1`,
/// and row 0 the new top.
pub open spec fn shifted(v: GameView, widen: bool, delta: u16) -> Seq<(u16, u16)> {
    Seq::new(
        v.ground.len(),
        |r: int|
            if r == 0 {
                next_top(v.ground[0], v.max_screen_i, widen, delta)
            } else {
                v.ground[r - 1]
            },
    )
}

/// The state after one tick of scrolling: the river moves down, bullets
/// climb and those above the ceiling leave, enemies and fuel sink, the score
/// grows by one and every `BURN_PERIOD`-th score burns one unit of fuel.
pub open spec fn scrolled(v: GameView, widen: bool, delta: u16) -> GameView {
    let score = if v.score < u32::MAX {
        (v.score + 1) as u32
    } else {
        v.score
    };
    GameView {
        ground: shifted(v, widen, delta),
        bullets: v.bullets.map_values(|b: Bullet| climbed(b)).filter(below_ceiling()),
        enemies: v.enemies.map_values(|e: Enemy| sunk_enemy(e)),
        fuels: v.fuels.map_values(|f: Fuel| sunk_fuel(f)),
        score: score,
        gas: if score % BURN_PERIOD == 0 {
            if v.gas > 0 {
                (v.gas - 1) as u32
            } else {
                0
            }
        } else {
            v.gas
        },
        ..v
    }
}

impl Game2DMatrix {
    /// Scrolls the game by one tick, shifting the banks by a random amount
    /// drawn from `[1, DELTA_END)`.
    pub fn shift_ground_loc(&mut self, change: bool)
        requires
            old(self)@.wf(),
        ensures
            final(self)@.wf(),
            exists|delta: u16| 1 <= delta < DELTA_END && final(self)@ == scrolled(old(self)@, change, delta),
    {
        let delta = random_below(1, DELTA_END);
        self.advance(change, delta);
    }

    /// Scrolls the game by one tick with bank shift `delta`.
    pub fn advance(&mut self, widen: bool, delta: u16)
        requires
            old(self)@.wf(),
            1 <= delta < DELTA_END,
        ensures
            final(self)@ == scrolled(old(self)@, widen, delta),
            final(self)@.wf(),
            forall|r: int|
                1 <= r < old(self)@.ground.len() ==> #[trigger] final(self)@.ground[r] == old(self)@.ground[r - 1],
    {
        let ghost v = self@;
        let n = self.ground.len();
        let mut r: usize = n - 1;
        while r > 0
            invariant
                n == v.ground.len(),
                n >= 2,
                r < n,
                self.ground@.len() == n,
                self@ == (GameView { ground: self.ground@, ..v }),
                forall|q: int| 0 <= q <= r ==> #[trigger] self.ground@[q] == v.ground[q],
                forall|q: int| r < q < n ==> #[trigger] self.ground@[q] == v.ground[q - 1],
            decreases r,
        {
            let above = self.ground[r - 1];
            self.ground.set(r, above);
            r = r - 1;
        }
        let below = self.ground[0];
        let top = if widen && below.1 < self.max_screen_i - EDGE_MARGIN {
            (below.0 + delta, below.1 + delta)
        } else if below.0 > delta {
            (below.0 - delta, below.1 - delta)
        } else {
            below
        };
        self.ground.set(0, top);
        assert(self.ground@ =~= shifted(v, widen, delta));

        let ghost lift = |b: Bullet| climbed(b);
        let ghost moved = v.bullets.map_values(lift);
        let nb = self.bullets.len();
        let mut bullets: Vec<Bullet> = Vec::new();
        let mut k: usize = 0;
        while k < nb
            invariant
                nb == v.bullets.len(),
                self.bullets@ == v.bullets,
                moved == v.bullets.map_values(lift),
                lift == (|b: Bullet| climbed(b)),
                k <= nb,
                bullets@ == moved.take(k as int).filter(below_ceiling()),
            decreases nb - k,
        {
            proof {
                lemma_take_push(moved, k as int);
                moved.take(k as int).lemma_filter_push(moved[k as int], below_ceiling());
            }
            let b = &self.bullets[k];
            let row = b.location.element_i.saturating_sub(BULLET_STEP);
            if row >= BULLET_CEILING {
                bullets.push(
                    Bullet {
                        location: Location { element_i: row, element_j: b.location.element_j },
                        active: b.active,
                        logo: b.logo.clone(),
                    },
                );
            }
            k = k + 1;
        }
        assert(moved.take(nb as int) =~= moved);
        self.bullets = bullets;

        let ne = self.enemies.len();
        let mut enemies: Vec<Enemy> = Vec::new();
        let mut k: usize = 0;
        while k < ne
            invariant
                ne == v.enemies.len(),
                self.enemies@ == v.enemies,
                k <= ne,
                enemies@ =~= v.enemies.take(k as int).map_values(|e: Enemy| sunk_enemy(e)),
            decreases ne - k,
        {
            let e = &self.enemies[k];
            enemies.push(
                Enemy {
                    location: Location {
                        element_i: e.location.element_i.saturating_add(1),
                        element_j: e.location.element_j,
                    },
                    logo: e.logo.clone(),
                },
            );
            k = k + 1;
        }
        assert(v.enemies.take(ne as int) =~= v.enemies);
        self.enemies = enemies;

        let nf = self.fuels.len();
        let mut fuels: Vec<Fuel> = Vec::new();
        let mut k: usize = 0;
        while k < nf
            invariant
                nf == v.fuels.len(),
                self.fuels@ == v.fuels,
                k <= nf,
                fuels@ =~= v.fuels.take(k as int).map_values(|f: Fuel| sunk_fuel(f)),
            decreases nf - k,
        {
            let f = &self.fuels[k];
            fuels.push(
                Fuel {
                    location: Location {
                        element_i: f.location.element_i.saturating_add(1),
                        element_j: f.location.element_j,
                    },
                    logo: f.logo.clone(),
                },
            );
            k = k + 1;
        }
        assert(v.fuels.take(nf as int) =~= v.fuels);
        self.fuels = fuels;

        self.score = self.score.saturating_add(1);
        if self.score % BURN_PERIOD == 0 {
            self.gas = self.gas.saturating_sub(1);
        }
        assert(self@ =~= scrolled(v, widen, delta));
    }
}

} // verus!
