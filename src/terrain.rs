use vstd::prelude::*;
use vstd::arithmetic::div_mod::{lemma_fundamental_div_mod, lemma_mod_multiples_basic, lemma_mod_pos_bound, lemma_small_mod};

use crate::random::random_below;
use crate::world::{corridor_valid, Game2DMatrix, GameView};

verus! {

/// How far the banks of a fresh segment may reach from mid-screen.
pub const BAND: u16 = 40;

/// Segment lengths are at least `FIRST_RUN_MIN`.
pub const FIRST_RUN_MIN: u16 = 5;

/// The first segment-length draw stays below `FIRST_RUN_END`.
pub const FIRST_RUN_END: u16 = 10;

/// Segment lengths stay below `RUN_END`.
pub const RUN_END: u16 = 15;

/// The banks of a fresh segment: the left one in `[mid - BAND, mid)`, the
/// right one in `[mid, mid + BAND)`.
pub open spec fn in_band(row: (u16, u16), mid: u16) -> bool {
    mid - BAND <= row.0 < mid <= row.1 < mid + BAND
}

/// The row after the last row of segment `k`.
pub open spec fn segment_end(starts: Seq<int>, k: int, n: int) -> int {
    if k + 1 < starts.len() {
        starts[k + 1]
    } else {
        n
    }
}

/// `starts` lists the rows at which fresh segments begin, and `lengths[k]`
/// the segment length drawn at start `k`. Row 0 starts the first segment;
/// after start `k` the next one is the first later row that is a multiple of
/// `lengths[k]`. Lengths are at least `FIRST_RUN_MIN`, never shrink, and stay
/// below `RUN_END`. Every row that starts no segment repeats the row above.
pub open spec fn segmented(ground: Seq<(u16, u16)>, starts: Seq<int>, lengths: Seq<u16>) -> bool {
    let n = ground.len() as int;
    &&& n > 0
    &&& starts.len() > 0
    &&& starts.len() == lengths.len()
    &&& starts[0] == 0
    &&& forall|k: int| 0 <= k < starts.len() ==> 0 <= #[trigger] starts[k] < n
    &&& forall|k: int| 0 <= k < starts.len() ==> FIRST_RUN_MIN <= #[trigger] lengths[k] < RUN_END
    &&& forall|k: int|
        0 <= k < starts.len() - 1 ==> {
            &&& starts[k] < #[trigger] starts[k + 1]
            &&& lengths[k] <= lengths[k + 1]
            &&& starts[k + 1] % (lengths[k] as int) == 0
        }
    &&& forall|k: int, m: int|
        0 <= k < starts.len() && starts[k] < m < segment_end(starts, k, n) ==> #[trigger] (m % (
        lengths[k] as int)) != 0
    &&& forall|r: int| 0 < r < n && !starts.contains(r) ==> #[trigger] ground[r] == ground[r - 1]
}

/// Some multiple of `p` lies in `(last, last + p]`.
proof fn lemma_next_multiple(last: int, p: int) -> (m: int)
    requires
        0 <= last,
        0 < p,
    ensures
        last < m <= last + p,
        m % p == 0,
{
    lemma_fundamental_div_mod(last, p);
    lemma_mod_pos_bound(last, p);
    lemma_mod_multiples_basic(last / p + 1, p);
    assert((last / p + 1) * p == p * (last / p) + p) by (nonlinear_arith);
    (last / p + 1) * p
}

/// Segment lengths of a generated river: every segment is shorter than
/// `RUN_END` rows, and the first one, when another follows it, is at least
/// `FIRST_RUN_MIN` rows long.
pub proof fn lemma_segment_runs(ground: Seq<(u16, u16)>, starts: Seq<int>, lengths: Seq<u16>)
    requires
        segmented(ground, starts, lengths),
    ensures
        forall|k: int|
            0 <= k < starts.len() ==> #[trigger] segment_end(starts, k, ground.len() as int)
                - starts[k] < RUN_END,
        starts.len() > 1 ==> starts[1] >= FIRST_RUN_MIN,
{
    let n = ground.len() as int;
    assert forall|k: int| 0 <= k < starts.len() implies #[trigger] segment_end(starts, k, n) - starts[k]
        < RUN_END by {
        let p = lengths[k] as int;
        let m = lemma_next_multiple(starts[k], p);
        if m < segment_end(starts, k, n) {
            assert(m % (lengths[k] as int) != 0);
        }
    }
    if starts.len() > 1 {
        let z: int = 0;
        assert(starts[z] < starts[z + 1] && starts[z + 1] % (lengths[z] as int) == 0);
        assert(FIRST_RUN_MIN <= lengths[0]);
        if starts[1] < lengths[0] {
            lemma_small_mod(starts[1] as nat, lengths[0] as nat);
        }
    }
}

proof fn lemma_same_starts(
    a: Seq<(u16, u16)>,
    sa: Seq<int>,
    b: Seq<(u16, u16)>,
    sb: Seq<int>,
    lengths: Seq<u16>,
    k: int,
)
    requires
        segmented(a, sa, lengths),
        segmented(b, sb, lengths),
        a.len() == b.len(),
        0 <= k < lengths.len(),
    ensures
        sa[k] == sb[k],
    decreases k,
{
    if k > 0 {
        let n = a.len() as int;
        lemma_same_starts(a, sa, b, sb, lengths, k - 1);
        let j = k - 1;
        assert(sa[j] < sa[j + 1] && sa[j + 1] % (lengths[j] as int) == 0);
        assert(sb[j] < sb[j + 1] && sb[j + 1] % (lengths[j] as int) == 0);
        assert(segment_end(sa, j, n) == sa[k] && segment_end(sb, j, n) == sb[k]);
        if sa[k] < sb[k] {
            assert(sa[k] % (lengths[j] as int) != 0);
        }
        if sb[k] < sa[k] {
            assert(sb[k] % (lengths[j] as int) != 0);
        }
    }
}

/// A generated river is determined by its draws: two rivers of the same
/// height, built with the same segment lengths and with the same banks at
/// each segment start, are equal row for row.
pub proof fn lemma_river_follows_draws(
    a: Seq<(u16, u16)>,
    sa: Seq<int>,
    b: Seq<(u16, u16)>,
    sb: Seq<int>,
    lengths: Seq<u16>,
)
    requires
        segmented(a, sa, lengths),
        segmented(b, sb, lengths),
        a.len() == b.len(),
        forall|k: int| 0 <= k < lengths.len() ==> a[#[trigger] sa[k]] == b[sb[k]],
    ensures
        sa == sb,
        a == b,
{
    assert forall|k: int| 0 <= k < lengths.len() implies sa[k] == sb[k] by {
        lemma_same_starts(a, sa, b, sb, lengths, k);
    }
    assert(sa =~= sb);
    assert forall|r: int| 0 <= r < a.len() implies a[r] == b[r] by {
        lemma_same_rows(a, b, sa, lengths, r);
    }
    assert(a =~= b);
}

proof fn lemma_same_rows(a: Seq<(u16, u16)>, b: Seq<(u16, u16)>, starts: Seq<int>, lengths: Seq<u16>, r: int)
    requires
        segmented(a, starts, lengths),
        segmented(b, starts, lengths),
        a.len() == b.len(),
        forall|k: int| 0 <= k < lengths.len() ==> a[#[trigger] starts[k]] == b[starts[k]],
        0 <= r < a.len(),
    ensures
        a[r] == b[r],
    decreases r,
{
    if starts.contains(r) {
        let k = choose|k: int| 0 <= k < starts.len() && starts[k] == r;
        assert(a[starts[k]] == b[starts[k]]);
    } else {
        assert(r != starts[0]);
        lemma_same_rows(a, b, starts, lengths, r - 1);
        assert(a[r] == a[r - 1]);
        assert(b[r] == b[r - 1]);
    }
}

/// One draw of the generator's random source at a segment start: the
/// fresh banks and the length of the segments from there on.
#[derive(Clone, Copy, Debug, PartialEq, Eq, Structural)]
pub struct SegmentDraw {
    pub left: u16,
    pub right: u16,
    pub length: u16,
}

/// The draws are ones the generator's random source may give: a first
/// length in `[FIRST_RUN_MIN, FIRST_RUN_END)`, banks in the band around
/// `mid`, and each length in `[previous length, RUN_END)`.
pub open spec fn draws_valid(first: u16, draws: Seq<SegmentDraw>, mid: u16) -> bool {
    &&& FIRST_RUN_MIN <= first < FIRST_RUN_END
    &&& forall|k: int|
        0 <= k < draws.len() ==> in_band(((#[trigger] draws[k]).left, draws[k].right), mid)
            && draws[k].length < RUN_END
    &&& forall|k: int|
        0 <= k < draws.len() ==> (if k == 0 {
            first
        } else {
            draws[k - 1].length
        }) <= (#[trigger] draws[k]).length
}

/// The first `i` rows of the river built from the draws, with the segment
/// length in force after them and the number of draws used: row `r` takes
/// the next draw's banks (and its length) when `r` is a multiple of the
/// length in force, and repeats the row above otherwise.
pub open spec fn grown(first: u16, draws: Seq<SegmentDraw>, i: nat) -> (Seq<(u16, u16)>, u16, nat)
    decreases i,
{
    if i == 0 {
        (Seq::empty(), first, 0)
    } else {
        let prev = grown(first, draws, (i - 1) as nat);
        let rows = prev.0;
        let length = prev.1;
        let used = prev.2;
        if length > 0 && (i - 1) % (length as int) == 0 {
            (rows.push((draws[used as int].left, draws[used as int].right)), draws[used as int].length, used + 1)
        } else {
            (rows.push(rows.last()), length, used)
        }
    }
}

impl Game2DMatrix {
    /// Builds the river from the given draws (see `grown`), using one draw
    /// per segment start.
    #[verifier::rlimit(50)]
    pub fn lay_ground(&mut self, first: u16, draws: &Vec<SegmentDraw>)
        requires
            old(self)@.wf(),
            draws_valid(first, draws@, old(self)@.screen_mid),
            draws@.len() >= old(self)@.ground.len(),
        ensures
            final(self)@ == (GameView { ground: final(self)@.ground, initialized: true, ..old(self)@ }),
            final(self)@.ground == grown(first, draws@, old(self)@.ground.len()).0,
            final(self)@.wf(),
            corridor_valid(final(self)@.ground, final(self)@.max_screen_i),
            forall|r: int|
                0 <= r < final(self)@.ground.len() ==> in_band(#[trigger] final(self)@.ground[r], final(self)@.screen_mid),
            exists|starts: Seq<int>, lengths: Seq<u16>| segmented(final(self)@.ground, starts, lengths),
    {
        let ghost v = self@;
        let mid = self.screen_mid;
        let n = self.ground.len();
        let mut length: u16 = first;
        let mut used: usize = 0;
        let ghost mut starts: Seq<int> = Seq::empty();
        let ghost mut lengths: Seq<u16> = Seq::empty();
        let mut i: usize = 0;
        while i < n
            invariant
                v.wf(),
                mid == v.screen_mid,
                n == v.ground.len(),
                self.ground@.len() == n,
                self@ == (GameView { ground: self.ground@, ..v }),
                FIRST_RUN_MIN <= length < RUN_END,
                i <= n,
                draws_valid(first, draws@, mid),
                draws@.len() >= n,
                used <= i,
                used == starts.len(),
                length == (if used == 0 { first } else { draws@[used - 1].length }),
                grown(first, draws@, i as nat) == (self.ground@.take(i as int), length, used as nat),
                forall|r: int| 0 <= r < i ==> in_band(#[trigger] self.ground@[r], mid),
                starts.len() == lengths.len(),
                i == 0 ==> starts.len() == 0,
                i > 0 ==> starts.len() > 0 && starts[0] == 0 && lengths.last() == length,
                forall|k: int| 0 <= k < starts.len() ==> 0 <= #[trigger] starts[k] < i,
                forall|k: int| 0 <= k < starts.len() ==> FIRST_RUN_MIN <= #[trigger] lengths[k] <= length,
                forall|k: int|
                    0 <= k < starts.len() - 1 ==> {
                        &&& starts[k] < #[trigger] starts[k + 1]
                        &&& lengths[k] <= lengths[k + 1]
                        &&& starts[k + 1] % (lengths[k] as int) == 0
                    },
                forall|k: int, m: int|
                    0 <= k < starts.len() && starts[k] < m < segment_end(starts, k, i as int) ==> #[trigger] (m % (
                    lengths[k] as int)) != 0,
                forall|r: int|
                    0 < r < i && !starts.contains(r) ==> #[trigger] self.ground@[r] == self.ground@[r - 1],
            decreases n - i,
        {
            if i % (length as usize) == 0 {
                let d = draws[used];
                let ghost before = self.ground@;
                self.ground.set(i, (d.left, d.right));
                let ghost old_length = length;
                length = d.length;
                used = used + 1;
                proof {
                    assert(self.ground@.take(i + 1) =~= before.take(i as int).push((d.left, d.right)));
                    let old_starts = starts;
                    let old_lengths = lengths;
                    starts = starts.push(i as int);
                    lengths = lengths.push(length);
                    assert(starts[starts.len() - 1] == i);
                    assert forall|r: int| 0 < r < i + 1 && !starts.contains(r) implies #[trigger] self.ground@[r] == self.ground@[r - 1] by {
                        if old_starts.contains(r) {
                            let j = choose|j: int| 0 <= j < old_starts.len() && old_starts[j] == r;
                            assert(starts[j] == r);
                        }
                        assert(before[r] == before[r - 1]);
                    }
                    assert forall|k: int, m: int|
                        0 <= k < starts.len() && starts[k] < m < segment_end(starts, k, i + 1) implies #[trigger] (m % (
                        lengths[k] as int)) != 0 by {
                        if k + 1 < starts.len() {
                            assert(segment_end(starts, k, i + 1) == segment_end(old_starts, k, i as int));
                        }
                    }
                    assert forall|k: int| 0 <= k < starts.len() - 1 implies {
                        &&& starts[k] < #[trigger] starts[k + 1]
                        &&& lengths[k] <= lengths[k + 1]
                        &&& starts[k + 1] % (lengths[k] as int) == 0
                    } by {
                        if k == old_starts.len() - 1 {
                            assert(lengths[k] == old_length);
                            assert(starts[k + 1] == i);
                        } else {
                            assert(starts[k + 1] == old_starts[k + 1]);
                        }
                    }
                }
            } else {
                proof {
                    if i == 0 {
                        lemma_small_mod(0, length as nat);
                    }
                }
                let above = self.ground[i - 1];
                let ghost before = self.ground@;
                self.ground.set(i, above);
                proof {
                    assert(self.ground@.take(i + 1) =~= before.take(i as int).push(before.take(i as int).last()));
                    assert forall|r: int| 0 < r < i + 1 && !starts.contains(r) implies #[trigger] self.ground@[r] == self.ground@[r - 1] by {
                        if r < i {
                            assert(before[r] == before[r - 1]);
                        }
                    }
                    assert forall|k: int, m: int|
                        0 <= k < starts.len() && starts[k] < m < segment_end(starts, k, i + 1) implies #[trigger] (m % (
                        lengths[k] as int)) != 0 by {
                        if k + 1 == starts.len() && m == i {
                            assert(lengths[k] == length);
                        } else {
                            assert(m < segment_end(starts, k, i as int));
                        }
                    }
                }
            }
            i = i + 1;
        }
        self.initialized = true;
        assert(self.ground@.take(n as int) =~= self.ground@);
        assert(segmented(self.ground@, starts, lengths));
    }

    /// Generates the river: a row 0 with fresh banks, then rows that repeat
    /// the row above until the next fresh segment. Segment starts are the
    /// rows `i` with `i % length == 0`, where `length` is first drawn from
    /// `[FIRST_RUN_MIN, FIRST_RUN_END)` and redrawn from `[length, RUN_END)`
    /// at each start; the banks of a start are drawn from the band around
    /// mid-screen.
    pub fn initialize_ground(&mut self)
        requires
            old(self)@.wf(),
        ensures
            final(self)@ == (GameView { ground: final(self)@.ground, initialized: true, ..old(self)@ }),
            exists|first: u16, draws: Seq<SegmentDraw>|
                draws_valid(first, draws, old(self)@.screen_mid) && final(self)@.ground == grown(
                    first,
                    draws,
                    old(self)@.ground.len(),
                ).0,
            final(self)@.wf(),
            corridor_valid(final(self)@.ground, final(self)@.max_screen_i),
            forall|r: int|
                0 <= r < final(self)@.ground.len() ==> in_band(#[trigger] final(self)@.ground[r], final(self)@.screen_mid),
            exists|starts: Seq<int>, lengths: Seq<u16>| segmented(final(self)@.ground, starts, lengths),
    {
        let mid = self.screen_mid;
        let n = self.ground.len();
        let first = random_below(FIRST_RUN_MIN, FIRST_RUN_END);
        let mut length = first;
        let mut draws: Vec<SegmentDraw> = Vec::new();
        let mut k: usize = 0;
        while k < n
            invariant
                self@.wf(),
                mid == self.screen_mid,
                k <= n,
                draws@.len() == k,
                draws_valid(first, draws@, mid),
                FIRST_RUN_MIN <= length < RUN_END,
                length == (if k == 0 { first } else { draws@[k - 1].length }),
            decreases n - k,
        {
            let left = random_below(mid - BAND, mid);
            let right = random_below(mid, mid + BAND);
            length = random_below(length, RUN_END);
            draws.push(SegmentDraw { left, right, length });
            k = k + 1;
        }
        self.lay_ground(first, &draws);
    }
}

} // verus!
