use vstd::prelude::*;

use crate::entities::GameStatus;
use crate::rules::resolved;
use crate::scroll::{scrolled, DELTA_END, EDGE_MARGIN};
use crate::world::{corridor_valid, GameView};

verus! {

/// A well-formed corridor stays well-formed: neither a resolution nor a
/// scroll ever puts a bank off screen or closes the river on a row.
pub proof fn lemma_corridor_stays_valid(v: GameView, widen: bool, delta: u16)
    requires
        v.wf(),
        v.initialized,
        1 <= delta < DELTA_END,
    ensures
        corridor_valid(v.ground, v.max_screen_i),
        corridor_valid(resolved(v).ground, v.max_screen_i),
        corridor_valid(scrolled(v, widen, delta).ground, v.max_screen_i),
{
    let g = scrolled(v, widen, delta).ground;
    assert forall|r: int| 0 <= r < g.len() implies #[trigger] g[r].0 < g[r].1 < v.max_screen_i by {
        if r > 0 {
            assert(g[r] == v.ground[r - 1]);
        }
    }
}

/// Scrolling moves the river down one row: row `r` after a scroll holds
/// the banks that row `r - 1` held before it, for every `r >= 1`.
pub proof fn lemma_scroll_shifts_rows(v: GameView, widen: bool, delta: u16)
    ensures
        scrolled(v, widen, delta).ground.len() == v.ground.len(),
        forall|r: int|
            1 <= r < v.ground.len() ==> #[trigger] scrolled(v, widen, delta).ground[r] == v.ground[r - 1],
{
}

/// Where the top row can neither widen (its right bank is within
/// `EDGE_MARGIN` of the edge) nor narrow (its left bank is at most `delta`),
/// a scroll leaves the top row as it was, and repeats it on row 1; the
/// craft, the status and the kill count are untouched, only the entities
/// age.
pub proof fn lemma_frozen_top_row(v: GameView, widen: bool, delta: u16)
    requires
        v.wf(),
        v.ground[0].0 <= delta,
        v.ground[0].1 >= v.max_screen_i - EDGE_MARGIN,
    ensures
        scrolled(v, widen, delta).ground[0] == v.ground[0],
        scrolled(v, widen, delta).ground[1] == v.ground[0],
        scrolled(v, widen, delta).player_i == v.player_i,
        scrolled(v, widen, delta).player_j == v.player_j,
        scrolled(v, widen, delta).game_staus == v.game_staus,
        scrolled(v, widen, delta).enemy_killed == v.enemy_killed,
{
}

/// The state after the given scrolls in order, each with its widening
/// choice and bank shift.
pub open spec fn scrolls(v: GameView, steps: Seq<(bool, u16)>) -> GameView
    decreases steps.len(),
{
    if steps.len() == 0 {
        v
    } else {
        scrolled(scrolls(v, steps.drop_last()), steps.last().0, steps.last().1)
    }
}

/// Repeated scrolls with nothing else in between on a top row that can
/// neither widen nor narrow (its right bank within `EDGE_MARGIN` of the
/// edge, its left bank at most every shift drawn): after `k` scrolls rows
/// `0..=k` all hold the old top row, row `i > k` holds the old row `i - k`,
/// and the craft, the status and the kill count are untouched.
pub proof fn lemma_frozen_top_rows(v: GameView, steps: Seq<(bool, u16)>)
    requires
        v.ground.len() >= 1,
        forall|j: int| 0 <= j < steps.len() ==> v.ground[0].0 <= (#[trigger] steps[j]).1,
        v.ground[0].1 >= v.max_screen_i - EDGE_MARGIN,
    ensures
        scrolls(v, steps).ground.len() == v.ground.len(),
        forall|i: int|
            0 <= i < v.ground.len() ==> #[trigger] scrolls(v, steps).ground[i] == if i <= steps.len() {
                v.ground[0]
            } else {
                v.ground[i - steps.len()]
            },
        scrolls(v, steps).max_screen_i == v.max_screen_i,
        scrolls(v, steps).player_i == v.player_i,
        scrolls(v, steps).player_j == v.player_j,
        scrolls(v, steps).game_staus == v.game_staus,
        scrolls(v, steps).enemy_killed == v.enemy_killed,
    decreases steps.len(),
{
    if steps.len() > 0 {
        let prefix = steps.drop_last();
        assert forall|j: int| 0 <= j < prefix.len() implies v.ground[0].0 <= (#[trigger] prefix[j]).1 by {
            assert(prefix[j] == steps[j]);
        }
        lemma_frozen_top_rows(v, prefix);
        let p = scrolls(v, prefix);
        let k = steps.len() as int;
        assert(v.ground[0].0 <= steps[k - 1].1);
        let w = scrolls(v, steps);
        assert forall|i: int| 0 <= i < v.ground.len() implies #[trigger] w.ground[i] == if i <= k {
            v.ground[0]
        } else {
            v.ground[i - k]
        } by {
            if i > 0 {
                assert(w.ground[i] == p.ground[i - 1]);
            }
        }
    }
}

/// Death is final: once the status is `DEATH`, neither a resolution nor a
/// scroll brings the craft back.
pub proof fn lemma_death_is_final(v: GameView, widen: bool, delta: u16)
    requires
        v.game_staus == GameStatus::DEATH,
    ensures
        resolved(v).game_staus == GameStatus::DEATH,
        scrolled(v, widen, delta).game_staus == GameStatus::DEATH,
{
}

/// An empty tank is fatal: a resolution on a game with no fuel left sets
/// the status to `DEATH`.
pub proof fn lemma_empty_tank_is_fatal(v: GameView)
    requires
        v.gas == 0,
    ensures
        resolved(v).game_staus == GameStatus::DEATH,
{
}

/// Fuel burns by at most one per scroll and never below zero.
pub proof fn lemma_fuel_burns_gently(v: GameView, widen: bool, delta: u16)
    ensures
        scrolled(v, widen, delta).gas == v.gas || scrolled(v, widen, delta).gas == v.gas - 1,
        v.gas == 0 ==> scrolled(v, widen, delta).gas == 0,
{
}

} // verus!
