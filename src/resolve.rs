use vstd::prelude::*;

use crate::entities::{Bullet, Enemy, Fuel, GameStatus};
use crate::rules::{
    count, crashes, cull_row, enemy_on_screen, fuel_left, fuel_taken, near, pickups,
    rammed, rams, reaches, resolved, sat_u32, select, shot_down, shot_flags, spent_flags,
    still_flying, strikes, CULL_MARGIN, ENEMY_REACH, FUEL_BONUS, FUEL_REACH, HIT_COLS,
    HIT_ROWS,
};
use crate::world::Game2DMatrix;

verus! {

/// `a` lies in `[b - tol, b + tol]`, computed without leaving `u16`.
pub fn within(a: u16, b: u16, tol: u16) -> (r: bool)
    ensures
        r == near(a, b, tol),
{
    b.saturating_sub(tol) <= a && a <= b.saturating_add(tol)
}

fn rams_at(e: &Enemy, col: u16, row: u16) -> (r: bool)
    ensures
        r == rams(*e, col, row),
{
    within(col, e.location.element_j, ENEMY_REACH) && e.location.element_i == row
}

fn strikes_at(b: &Bullet, e: &Enemy) -> (r: bool)
    ensures
        r == strikes(*b, *e),
{
    within(b.location.element_i, e.location.element_i, HIT_ROWS) && within(
        b.location.element_j,
        e.location.element_j,
        HIT_COLS,
    )
}

fn reaches_at(f: &Fuel, col: u16, row: u16) -> (r: bool)
    ensures
        r == reaches(*f, col, row),
{
    within(col, f.location.element_j, FUEL_REACH) && f.location.element_i == row
}

pub(crate) proof fn lemma_take_push<T>(s: Seq<T>, i: int)
    requires
        0 <= i < s.len(),
    ensures
        s.take(i + 1) == s.take(i).push(s[i]),
{
    assert(s.take(i + 1) =~= s.take(i).push(s[i]));
}

/// How many flags are set.
pub fn count_set(flags: &Vec<bool>) -> (r: usize)
    ensures
        r == count(flags@, flags@.len() as int),
{
    let n = flags.len();
    let mut total: usize = 0;
    let mut k: usize = 0;
    while k < n
        invariant
            n == flags@.len(),
            k <= n,
            total == count(flags@, k as int),
            total <= k,
        decreases n - k,
    {
        if flags[k] {
            total = total + 1;
        }
        k = k + 1;
    }
    total
}

/// `gas` plus `FUEL_BONUS` for each of `taken` pickups, saturating at `u32::MAX`.
pub fn add_bonus(gas: u32, taken: usize) -> (r: u32)
    ensures
        r == sat_u32(gas + FUEL_BONUS * taken),
{
    let room: u32 = (u32::MAX - gas) / FUEL_BONUS;
    if taken as u64 > room as u64 {
        assert(FUEL_BONUS * taken > u32::MAX - gas) by (nonlinear_arith)
            requires
                room == (u32::MAX - gas) / 30,
                taken > room,
                FUEL_BONUS == 30,
        ;
        u32::MAX
    } else {
        assert(FUEL_BONUS * taken <= u32::MAX - gas) by (nonlinear_arith)
            requires
                room == (u32::MAX - gas) / 30,
                taken <= room,
                FUEL_BONUS == 30,
        ;
        gas + FUEL_BONUS * (taken as u32)
    }
}

/// `killed` plus `kills`, saturating at `u32::MAX`.
pub fn add_kills(killed: u32, kills: usize) -> (r: u32)
    ensures
        r == sat_u32(killed + kills),
{
    if kills as u64 > (u32::MAX - killed) as u64 {
        u32::MAX
    } else {
        killed + kills as u32
    }
}

/// The enemies above row `floor`, in order.
fn enemies_above(enemies: &Vec<Enemy>, floor: u16) -> (r: Vec<Enemy>)
    ensures
        r@ == enemies@.filter(enemy_on_screen(floor as int)),
{
    let n = enemies.len();
    let mut out: Vec<Enemy> = Vec::new();
    let mut k: usize = 0;
    while k < n
        invariant
            n == enemies@.len(),
            k <= n,
            out@ == enemies@.take(k as int).filter(enemy_on_screen(floor as int)),
        decreases n - k,
    {
        proof {
            lemma_take_push(enemies@, k as int);
            enemies@.take(k as int).lemma_filter_push(enemies@[k as int], enemy_on_screen(floor as int));
        }
        if enemies[k].location.element_i < floor {
            out.push(enemies[k].duplicate());
        }
        k = k + 1;
    }
    assert(enemies@.take(n as int) =~= enemies@);
    out
}

impl Game2DMatrix {
    /// The craft is out of fuel or touches a bank of its row.
    pub fn check_accidents(&self) -> (r: bool)
        requires
            self@.wf(),
        ensures
            r == crashes(self@),
    {
        let banks = self.ground[self.player_j as usize];
        self.gas == 0 || self.player_i <= banks.0 || self.player_i >= banks.1
    }

    /// Some enemy rams the craft.
    pub fn check_enemy_collision(&self) -> (r: bool)
        ensures
            r == rammed(self@),
    {
        let n = self.enemies.len();
        let mut k: usize = 0;
        while k < n
            invariant
                n == self.enemies@.len(),
                k <= n,
                forall|j: int| 0 <= j < k ==> !rams(self.enemies@[j], self.player_i, self.player_j),
            decreases n - k,
        {
            if rams_at(&self.enemies[k], self.player_i, self.player_j) {
                assert(rams(self@.enemies[k as int], self@.player_i, self@.player_j));
                return true;
            }
            k = k + 1;
        }
        false
    }

    /// How many fuel pickups the craft takes.
    pub fn check_fuel(&self) -> (r: usize)
        ensures
            r == pickups(self@),
    {
        let n = self.fuels.len();
        let mut taken: usize = 0;
        let mut k: usize = 0;
        while k < n
            invariant
                n == self.fuels@.len(),
                k <= n,
                taken == self.fuels@.take(k as int).filter(fuel_taken(self.player_i, self.player_j)).len(),
                taken <= k,
            decreases n - k,
        {
            proof {
                lemma_take_push(self.fuels@, k as int);
                self.fuels@.take(k as int).lemma_filter_push(self.fuels@[k as int], fuel_taken(self.player_i, self.player_j));
            }
            if reaches_at(&self.fuels[k], self.player_i, self.player_j) {
                taken = taken + 1;
            }
            k = k + 1;
        }
        assert(self.fuels@.take(n as int) =~= self.fuels@);
        taken
    }

    /// Pairs bullets with enemies: the first flag vector says which enemies
    /// are shot down, the second which bullets strike some enemy.
    pub fn pair_bullets(&self) -> (r: (Vec<bool>, Vec<bool>))
        ensures
            r.0@ == shot_flags(self.enemies@, self.bullets@),
            r.1@ == spent_flags(self.enemies@, self.bullets@),
    {
        let ghost enemies = self.enemies@;
        let ghost bullets = self.bullets@;
        let ne = self.enemies.len();
        let nb = self.bullets.len();
        let mut hit_before: Vec<bool> = Vec::new();
        let mut i: usize = 0;
        while i < nb
            invariant
                i <= nb,
                hit_before@ =~= Seq::new(i as nat, |x: int| false),
            decreases nb - i,
        {
            hit_before.push(false);
            i = i + 1;
        }
        let mut shot: Vec<bool> = Vec::new();
        let mut k: usize = 0;
        while k < ne
            invariant
                enemies == self.enemies@,
                bullets == self.bullets@,
                ne == enemies.len(),
                nb == bullets.len(),
                k <= ne,
                hit_before@.len() == nb,
                forall|x: int|
                    0 <= x < nb ==> #[trigger] hit_before@[x] == exists|j: int|
                        0 <= j < k && #[trigger] strikes(bullets[x], enemies[j]),
                shot@ =~= Seq::new(k as nat, |j: int| shot_down(enemies, bullets, j)),
            decreases ne - k,
        {
            let ghost before = hit_before@;
            let e = &self.enemies[k];
            let mut hit = false;
            let mut x: usize = 0;
            while x < nb
                invariant
                    enemies == self.enemies@,
                    bullets == self.bullets@,
                    ne == enemies.len(),
                    nb == bullets.len(),
                    k < ne,
                    *e == enemies[k as int],
                    x <= nb,
                    hit_before@.len() == nb,
                    forall|y: int| 0 <= y < x ==> #[trigger] hit_before@[y] == (before[y] || strikes(bullets[y], enemies[k as int])),
                    forall|y: int| x <= y < nb ==> #[trigger] hit_before@[y] == before[y],
                    hit == exists|y: int|
                        0 <= y < x && bullets[y].active && #[trigger] strikes(bullets[y], enemies[k as int]) && !before[y],
                decreases nb - x,
            {
                let s = strikes_at(&self.bullets[x], e);
                if s && self.bullets[x].active && !hit_before[x] {
                    hit = true;
                }
                if s {
                    hit_before.set(x, true);
                }
                x = x + 1;
            }
            proof {
                if hit {
                    let y = choose|y: int|
                        0 <= y < x && bullets[y].active && #[trigger] strikes(bullets[y], enemies[k as int]) && !before[y];
                    assert forall|j: int| 0 <= j < k implies !strikes(bullets[y], #[trigger] enemies[j]) by {
                        if strikes(bullets[y], enemies[j]) {
                            assert(before[y]);
                        }
                    }
                    assert(shot_down(enemies, bullets, k as int));
                } else {
                    assert forall|y: int|
                        0 <= y < nb && bullets[y].active && #[trigger] strikes(bullets[y], enemies[k as int]) implies
                        exists|j: int| 0 <= j < k && #[trigger] strikes(bullets[y], enemies[j]) by {
                        assert(before[y]);
                    }
                }
                assert forall|y: int| 0 <= y < nb implies #[trigger] hit_before@[y] == exists|j: int|
                    0 <= j < k + 1 && #[trigger] strikes(bullets[y], enemies[j]) by {
                    if strikes(bullets[y], enemies[k as int]) {
                        assert(hit_before@[y]);
                    }
                }
            }
            shot.push(hit);
            k = k + 1;
        }
        (shot, hit_before)
    }

    /// The bullets still flying after the pairing, given the flags of the
    /// bullets that strike some enemy.
    pub fn flying_bullets(&self, spent: &Vec<bool>) -> (r: Vec<Bullet>)
        requires
            spent@ == spent_flags(self.enemies@, self.bullets@),
        ensures
            r@ == self.bullets@.filter(still_flying(self.enemies@)),
    {
        let ghost p = still_flying(self.enemies@);
        let n = self.bullets.len();
        let mut out: Vec<Bullet> = Vec::new();
        let mut k: usize = 0;
        while k < n
            invariant
                n == self.bullets@.len(),
                spent@ == spent_flags(self.enemies@, self.bullets@),
                p == still_flying(self.enemies@),
                k <= n,
                out@ == self.bullets@.take(k as int).filter(p),
            decreases n - k,
        {
            proof {
                lemma_take_push(self.bullets@, k as int);
                self.bullets@.take(k as int).lemma_filter_push(self.bullets@[k as int], p);
            }
            if self.bullets[k].active && !spent[k] {
                out.push(self.bullets[k].duplicate());
            }
            k = k + 1;
        }
        assert(self.bullets@.take(n as int) =~= self.bullets@);
        out
    }

    /// The fuel pickups that stay: not taken by the craft and above the
    /// cull row.
    pub fn remaining_fuel(&self) -> (r: Vec<Fuel>)
        requires
            self@.wf(),
        ensures
            r@ == self.fuels@.filter(fuel_left(self.player_i, self.player_j, cull_row(self@))),
    {
        let floor: u16 = self.max_screen_j - CULL_MARGIN;
        let ghost p = fuel_left(self.player_i, self.player_j, cull_row(self@));
        let n = self.fuels.len();
        let mut out: Vec<Fuel> = Vec::new();
        let mut k: usize = 0;
        while k < n
            invariant
                n == self.fuels@.len(),
                floor == cull_row(self@),
                p == fuel_left(self.player_i, self.player_j, cull_row(self@)),
                k <= n,
                out@ == self.fuels@.take(k as int).filter(p),
            decreases n - k,
        {
            proof {
                lemma_take_push(self.fuels@, k as int);
                self.fuels@.take(k as int).lemma_filter_push(self.fuels@[k as int], p);
            }
            if !reaches_at(&self.fuels[k], self.player_i, self.player_j)
                && self.fuels[k].location.element_i < floor {
                out.push(self.fuels[k].duplicate());
            }
            k = k + 1;
        }
        assert(self.fuels@.take(n as int) =~= self.fuels@);
        out
    }

    /// Resolves one tick of collisions and pickups, in this order: fuel
    /// and bank crashes, enemies ramming the craft, bullets against enemies,
    /// fuel pickups, then the bottom cull. Returns how many enemies were shot
    /// down, one kill event each.
    pub fn reactions(&mut self) -> (kills: usize)
        requires
            old(self)@.wf(),
        ensures
            final(self)@ == resolved(old(self)@),
            final(self)@.wf(),
            kills == count(shot_flags(old(self)@.enemies, old(self)@.bullets), old(self)@.enemies.len() as int),
    {
        let ghost v = self@;
        let crashed = self.check_accidents();
        let rammed_now = self.check_enemy_collision();
        if self.game_staus == GameStatus::DEATH || crashed || rammed_now {
            self.game_staus = GameStatus::DEATH;
        }
        let (shot, spent) = self.pair_bullets();
        let n = self.enemies.len();
        let ghost alive = shot@.map_values(|s: bool| !s);
        let mut kept: Vec<Enemy> = Vec::new();
        let mut kills: usize = 0;
        let mut k: usize = 0;
        while k < n
            invariant
                n == self.enemies@.len(),
                shot@.len() == n,
                alive == shot@.map_values(|s: bool| !s),
                k <= n,
                kept@ == select(self.enemies@, alive, k as int),
                kills == count(shot@, k as int),
                kills <= k,
            decreases n - k,
        {
            if shot[k] {
                kills = kills + 1;
            } else {
                kept.push(self.enemies[k].duplicate());
            }
            k = k + 1;
        }
        let bullets = self.flying_bullets(&spent);
        let taken = self.check_fuel();
        let fuels = self.remaining_fuel();
        let floor: u16 = self.max_screen_j - CULL_MARGIN;
        self.enemies = enemies_above(&kept, floor);
        self.bullets = bullets;
        self.fuels = fuels;
        self.gas = add_bonus(self.gas, taken);
        self.enemy_killed = add_kills(self.enemy_killed, kills);
        assert(self@ =~= resolved(v));
        kills
    }
}

} // verus!
