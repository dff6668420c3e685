use vstd::prelude::*;

use crate::entities::{Bullet, Enemy, Fuel, GameStatus};
use crate::resolve::{add_bonus, add_kills, count_set};
use crate::rules::{
    count, crashes, cull_row, enemy_on_screen, fuel_left, next_status, pickups, rammed, resolved, sat_u32, select,
    shot_flags, still_flying, CULL_MARGIN, FUEL_BONUS,
};
use crate::world::{Game2DMatrix, GameView};

verus! {

/// What the independent checks of one tick found, each computed from the
/// same snapshot of the game. They are merged into the game by
/// `Game2DMatrix::apply_findings`.
pub struct Findings {
    /// The craft is out of fuel or on a bank.
    pub crashed: bool,
    /// Some enemy rams the craft.
    pub rammed: bool,
    /// How many fuel pickups the craft takes.
    pub taken: usize,
    /// Per enemy: whether it is above the cull row.
    pub on_screen: Vec<bool>,
    /// The fuel pickups that stay.
    pub fuels: Vec<Fuel>,
    /// Per enemy: whether a bullet shoots it down.
    pub shot: Vec<bool>,
    /// The bullets still flying.
    pub bullets: Vec<Bullet>,
}

/// The findings are those of the checks run on `v`.
pub open spec fn findings_of(v: GameView, f: Findings) -> bool {
    let floor = cull_row(v);
    &&& f.crashed == crashes(v)
    &&& f.rammed == rammed(v)
    &&& f.taken == pickups(v)
    &&& f.on_screen@ == Seq::new(v.enemies.len(), |k: int| v.enemies[k].location.element_i < floor)
    &&& f.fuels@ == v.fuels.filter(fuel_left(v.player_i, v.player_j, floor))
    &&& f.shot@ == shot_flags(v.enemies, v.bullets)
    &&& f.bullets@ == v.bullets.filter(still_flying(v.enemies))
}

/// Per enemy: it survives the merge when it is on screen and not shot down.
pub open spec fn survivor_flags(n: nat, f: Findings) -> Seq<bool> {
    Seq::new(n, |k: int| f.on_screen@[k] && !f.shot@[k])
}

/// The game after merging the findings into `v`.
pub open spec fn merged(v: GameView, f: Findings) -> GameView {
    GameView {
        game_staus: next_status(v, f.crashed, f.rammed),
        enemies: select(v.enemies, survivor_flags(v.enemies.len(), f), v.enemies.len() as int),
        bullets: f.bullets@,
        fuels: f.fuels@,
        gas: sat_u32(v.gas + FUEL_BONUS * f.taken),
        enemy_killed: sat_u32(v.enemy_killed + count(f.shot@, v.enemies.len() as int)),
        ..v
    }
}

proof fn lemma_select_filter<T>(s: Seq<T>, a: Seq<bool>, b: Seq<bool>, p: spec_fn(T) -> bool, n: int)
    requires
        0 <= n <= s.len(),
        n <= a.len(),
        n <= b.len(),
        forall|k: int| 0 <= k < n ==> #[trigger] b[k] == (a[k] && p(s[k])),
    ensures
        select(s, a, n).filter(p) == select(s, b, n),
    decreases n,
{
    if n == 0 {
        assert(select(s, a, n).filter(p).len() == 0);
        assert(select(s, a, n).filter(p) =~= select(s, b, n));
    } else {
        lemma_select_filter(s, a, b, p, n - 1);
        if a[n - 1] {
            select(s, a, n - 1).lemma_filter_push(s[n - 1], p);
        }
    }
}

/// The two resolvers agree: merging the findings of the independent checks,
/// each run on the state at the start of the tick, gives exactly the state
/// that the sequential resolution gives.
pub proof fn lemma_resolvers_agree(v: GameView, f: Findings)
    requires
        v.wf(),
        findings_of(v, f),
    ensures
        merged(v, f) == resolved(v),
{
    let n = v.enemies.len();
    let alive = shot_flags(v.enemies, v.bullets).map_values(|s: bool| !s);
    lemma_select_filter(
        v.enemies,
        alive,
        survivor_flags(n, f),
        enemy_on_screen(cull_row(v)),
        n as int,
    );
    assert(merged(v, f) =~= resolved(v));
}

impl Game2DMatrix {
    /// The bottom-edge check: which enemies are above the cull row, and
    /// which fuel pickups stay.
    pub fn check_bottom(&self) -> (r: (Vec<bool>, Vec<Fuel>))
        requires
            self@.wf(),
        ensures
            r.0@ == Seq::new(
                self@.enemies.len(),
                |k: int| self@.enemies[k].location.element_i < cull_row(self@),
            ),
            r.1@ == self@.fuels.filter(fuel_left(self.player_i, self.player_j, cull_row(self@))),
    {
        let floor: u16 = self.max_screen_j - CULL_MARGIN;
        let n = self.enemies.len();
        let mut flags: Vec<bool> = Vec::new();
        let mut k: usize = 0;
        while k < n
            invariant
                n == self.enemies@.len(),
                floor == cull_row(self@),
                k <= n,
                flags@ =~= Seq::new(
                    k as nat,
                    |j: int| self.enemies@[j].location.element_i < floor,
                ),
            decreases n - k,
        {
            flags.push(self.enemies[k].location.element_i < floor);
            k = k + 1;
        }
        (flags, self.remaining_fuel())
    }

    /// The bullet-against-enemy pairing: which enemies are shot down, and
    /// which bullets are still flying.
    pub fn shoot(&self) -> (r: (Vec<bool>, Vec<Bullet>))
        ensures
            r.0@ == shot_flags(self@.enemies, self@.bullets),
            r.1@ == self@.bullets.filter(still_flying(self@.enemies)),
    {
        let (shot, spent) = self.pair_bullets();
        (shot, self.flying_bullets(&spent))
    }

    /// Runs every check of a tick on this game, as it stands.
    pub fn find(&self) -> (f: Findings)
        requires
            self@.wf(),
        ensures
            findings_of(self@, f),
    {
        let crashed = self.check_accidents();
        let rammed_now = self.check_enemy_collision();
        let taken = self.check_fuel();
        let (on_screen, fuels) = self.check_bottom();
        let (shot, bullets) = self.shoot();
        Findings { crashed, rammed: rammed_now, taken, on_screen, fuels, shot, bullets }
    }

    /// Merges findings into the game: sets the status, keeps the enemies that
    /// are on screen and not shot down, replaces bullets and fuel, adds the
    /// fuel bonus and the kills. Returns the number of kills.
    pub fn apply_findings(&mut self, f: Findings) -> (kills: usize)
        requires
            old(self)@.wf(),
            f.on_screen@.len() == old(self)@.enemies.len(),
            f.shot@.len() == old(self)@.enemies.len(),
        ensures
            final(self)@ == merged(old(self)@, f),
            final(self)@.wf(),
            kills == count(f.shot@, old(self)@.enemies.len() as int),
    {
        let ghost v = self@;
        if self.game_staus == GameStatus::DEATH || f.crashed || f.rammed {
            self.game_staus = GameStatus::DEATH;
        }
        let ghost keep = survivor_flags(v.enemies.len(), f);
        let n = self.enemies.len();
        let mut kept: Vec<Enemy> = Vec::new();
        let mut k: usize = 0;
        while k < n
            invariant
                n == self.enemies@.len(),
                f.on_screen@.len() == n,
                f.shot@.len() == n,
                keep == survivor_flags(n as nat, f),
                k <= n,
                kept@ == select(self.enemies@, keep, k as int),
            decreases n - k,
        {
            if f.on_screen[k] && !f.shot[k] {
                kept.push(self.enemies[k].duplicate());
            }
            k = k + 1;
        }
        let kills = count_set(&f.shot);
        self.enemies = kept;
        self.bullets = f.bullets;
        self.fuels = f.fuels;
        self.gas = add_bonus(self.gas, f.taken);
        self.enemy_killed = add_kills(self.enemy_killed, kills);
        assert(self@ =~= merged(v, f));
        kills
    }

    /// Resolves one tick as independent checks on one snapshot of the game,
    /// merged afterwards; the outcome is that of `reactions`. Returns the
    /// number of kills.
    pub fn multi_reactions(&mut self) -> (kills: usize)
        requires
            old(self)@.wf(),
        ensures
            final(self)@ == resolved(old(self)@),
            final(self)@.wf(),
            kills == count(shot_flags(old(self)@.enemies, old(self)@.bullets), old(self)@.enemies.len() as int),
    {
        let f = self.find();
        proof {
            lemma_resolvers_agree(self@, f);
        }
        self.apply_findings(f)
    }
}

} // verus!
