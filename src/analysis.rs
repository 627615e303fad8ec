//! Hotspot, cross-slot and nonce-deficit analysis of chip readings.
//!
//! All scores are exact fixed-point values: a score of `s` stands for
//! `s / SCALE`, rounded down.
use crate::models::{Chip, Slot};
use crate::topology::{neighbor_indices_spec, upstream_neighbor_indices};
use vstd::prelude::*;

verus! {

/// Fixed-point scale of every score: 1000 stands for 1.0.
pub const SCALE: u64 = 1000;

/// Most boards the analysis compares at once. The statistics of a position
/// are kept exactly (count, sum and sum of squares), and this bound keeps
/// them and the z-score arithmetic within 128-bit integers.
pub const MAX_SLOTS: usize = 0x10_0000;

/// Most chips on one board. Nonce totals are kept exactly, and this bound
/// keeps them and the deficit arithmetic within 128-bit integers.
pub const MAX_CHIPS: usize = 0xffff_ffff;

/// Sum of a sequence of integers.
pub open spec fn sum_of(s: Seq<int>) -> int
    decreases s.len(),
{
    if s.len() == 0 {
        0
    } else {
        sum_of(s.drop_last()) + s.last()
    }
}

/// Sum of the squares of a sequence of integers.
pub open spec fn sum_sq_of(s: Seq<int>) -> int
    decreases s.len(),
{
    if s.len() == 0 {
        0
    } else {
        sum_sq_of(s.drop_last()) + s.last() * s.last()
    }
}

/// Nonce counts of the chips, in order.
pub open spec fn nonces_of(chips: Seq<Chip>) -> Seq<int> {
    chips.map_values(|c: Chip| c.nonce as int)
}

/// `m` is the square root of `x`, rounded down.
pub open spec fn is_floor_sqrt(m: int, x: int) -> bool {
    0 <= m && m * m <= x < (m + 1) * (m + 1)
}

/// Square root of `x`, rounded down.
pub open spec fn floor_sqrt(x: int) -> int {
    choose|m: int| is_floor_sqrt(m, x)
}

/// Gradient of a chip at temperature `center` against neighbours at
/// `neighbors`: how far it lies above their mean, in `SCALE` units, and 0
/// when it is not above it or has no neighbours.
pub open spec fn gradient_milli(center: int, neighbors: Seq<int>) -> int {
    let k = neighbors.len() as int;
    let excess = k * center - sum_of(neighbors);
    if k == 0 || excess <= 0 {
        0
    } else {
        SCALE * excess / k
    }
}

/// Temperatures of the chips that the chip at `idx` is compared with.
pub open spec fn neighbor_temps(chips: Seq<Chip>, idx: int, cpd: int) -> Seq<int> {
    neighbor_indices_spec(idx, cpd, chips.len() as int).map_values(|j: int| chips[j].temp as int)
}

/// The square root rounded down is unique.
proof fn lemma_floor_sqrt_unique(m: int, x: int)
    requires
        is_floor_sqrt(m, x),
    ensures
        floor_sqrt(x) == m,
{
    let c = floor_sqrt(x);
    assert(is_floor_sqrt(c, x));
    if c < m {
        assert((c + 1) * (c + 1) <= m * m) by (nonlinear_arith)
            requires
                0 <= c < m,
        ;
    } else if m < c {
        assert((m + 1) * (m + 1) <= c * c) by (nonlinear_arith)
            requires
                0 <= m < c,
        ;
    }
}

/// Square root of `x`, rounded down, by bisection.
fn floor_sqrt_u128(x: u128) -> (r: u64)
    ensures
        r as int == floor_sqrt(x as int),
{
    let mut lo: u128 = 0;
    let mut hi: u128 = 0x1_0000_0000_0000_0000;
    assert(x < hi * hi) by (nonlinear_arith)
        requires
            hi == 0x1_0000_0000_0000_0000u128,
            x <= 0xffff_ffff_ffff_ffff_ffff_ffff_ffff_ffffu128,
    ;
    while hi - lo > 1
        invariant
            lo < hi <= 0x1_0000_0000_0000_0000u128,
            lo * lo <= x,
            x < hi * hi,
        decreases hi - lo,
    {
        let mid = lo + (hi - lo) / 2;
        assert(mid * mid <= 0xffff_ffff_ffff_fffe_0000_0000_0000_0001u128) by (nonlinear_arith)
            requires
                0 <= mid <= 0xffff_ffff_ffff_ffffu128,
        ;
        if mid * mid <= x {
            lo = mid;
        } else {
            hi = mid;
        }
    }
    proof {
        assert(is_floor_sqrt(lo as int, x as int));
        lemma_floor_sqrt_unique(lo as int, x as int);
    }
    lo as u64
}

/// How much hotter than the mean of its neighbours a chip at `center` is,
/// in `SCALE` units; 0 when it is not hotter or has no neighbours.
pub fn hot_gradient(center: i32, neighbors: &Vec<i32>) -> (r: u64)
    ensures
        r as int == gradient_milli(center as int, neighbors@.map_values(|t: i32| t as int)),
{
    let ghost ns = neighbors@.map_values(|t: i32| t as int);
    let k = neighbors.len();
    if k == 0 {
        return 0;
    }
    let mut sum: i128 = 0;
    let mut i: usize = 0;
    while i < k
        invariant
            k == neighbors@.len(),
            i <= k,
            ns == neighbors@.map_values(|t: i32| t as int),
            sum == sum_of(ns.take(i as int)),
            -(i as int) * 0x8000_0000 <= sum < (i as int) * 0x8000_0000 + 1,
        decreases k - i,
    {
        assert(ns.take(i as int + 1).drop_last() =~= ns.take(i as int));
        sum = sum + neighbors[i] as i128;
        i = i + 1;
    }
    assert(ns.take(k as int) =~= ns);
    let kk = k as i128;
    let c = center as i128;
    assert(-(kk * 0x8000_0000) <= kk * c < kk * 0x8000_0000) by (nonlinear_arith)
        requires
            1 <= kk <= 0xffff_ffff_ffff_ffff,
            -0x8000_0000 <= c < 0x8000_0000,
    ;
    let excess = kk * c - sum;
    if excess <= 0 {
        return 0;
    }
    let scale = SCALE as i128;
    assert(0 < scale * excess <= 1000 * (kk * 0x1_0000_0000)) by (nonlinear_arith)
        requires
            scale == 1000,
            0 < excess <= kk * 0x1_0000_0000,
    ;
    let se = scale * excess;
    let g = se / kk;
    assert(g <= 1000 * 0x1_0000_0000) by (nonlinear_arith)
        requires
            g as int == se as int / kk as int,
            0 < se <= 1000 * (kk * 0x1_0000_0000),
            kk >= 1,
    ;
    g as u64
}

/// Temperatures seen at flat position `p` on the given boards, in board
/// order; a board with `p` chips or fewer contributes nothing.
pub open spec fn samples_at(slots: Seq<Slot>, p: int) -> Seq<int>
    decreases slots.len(),
{
    if slots.len() == 0 {
        Seq::<int>::empty()
    } else {
        let rest = samples_at(slots.drop_last(), p);
        if p < slots.last().chips@.len() {
            rest.push(slots.last().chips@[p].temp as int)
        } else {
            rest
        }
    }
}

/// One-sided z-score, in `SCALE` units, of a chip at temperature `t` against
/// `n` samples whose sum is `s` and whose sum of squares is `q`. With
/// `mean = s / n` and `std` the population standard deviation: 0 when
/// `t <= mean`; `min(t - mean, 3)` when `std < 0.5`; else `(t - mean) / std`.
/// Here `dev` is `n * (t - mean)` and `var` is `n * n * std * std`, and the
/// last case is `sqrt(SCALE * SCALE * dev * dev / var)` rounded down. A chip
/// above the mean always scores at least 1 (one thousandth), so that any
/// visible deviation is flagged even where rounding down would give 0.
pub open spec fn hot_zscore_milli(t: int, n: int, s: int, q: int) -> int {
    let dev = n * t - s;
    let var = n * q - s * s;
    if n <= 0 || dev <= 0 {
        0
    } else {
        let rounded = if 4 * var < n * n {
            if SCALE * dev / n < 3 * SCALE {
                SCALE * dev / n
            } else {
                3 * SCALE
            }
        } else {
            floor_sqrt((SCALE * dev) * (SCALE * dev) / var)
        };
        if rounded < 1 {
            1
        } else {
            rounded
        }
    }
}

/// Exact statistics of the temperatures seen at one flat chip position
/// across boards: how many, their sum and the sum of their squares.
#[derive(Debug, Clone, Copy, PartialEq, Eq, Structural)]
pub struct PositionStats {
    pub count: u64,
    pub sum: i64,
    pub sum_sq: u128,
}

impl PositionStats {
    /// These are the statistics of `samples`.
    pub open spec fn describes(self, samples: Seq<int>) -> bool {
        &&& self.count == samples.len()
        &&& self.sum == sum_of(samples)
        &&& self.sum_sq == sum_sq_of(samples)
    }

    /// The sizes that statistics of at most `MAX_SLOTS` 32-bit temperatures
    /// can reach.
    pub open spec fn within_bounds(self) -> bool {
        &&& self.count <= MAX_SLOTS
        &&& -(self.count * 0x8000_0000) <= self.sum <= self.count * 0x8000_0000
        &&& self.sum_sq <= self.count * 0x4000_0000_0000_0000
    }
}

/// Statistics of a set of temperatures.
pub fn position_stats(temps: &Vec<i32>) -> (r: PositionStats)
    requires
        temps@.len() <= MAX_SLOTS,
    ensures
        r.describes(temps@.map_values(|t: i32| t as int)),
        r.within_bounds(),
{
    let ghost ts = temps@.map_values(|t: i32| t as int);
    let mut sum: i64 = 0;
    let mut sum_sq: u128 = 0;
    let mut i: usize = 0;
    while i < temps.len()
        invariant
            temps@.len() <= MAX_SLOTS,
            i <= temps@.len(),
            ts == temps@.map_values(|t: i32| t as int),
            sum == sum_of(ts.take(i as int)),
            sum_sq == sum_sq_of(ts.take(i as int)),
            -(i * 0x8000_0000) <= sum <= i * 0x8000_0000,
            sum_sq <= i * 0x4000_0000_0000_0000,
        decreases temps@.len() - i,
    {
        assert(ts.take(i as int + 1).drop_last() =~= ts.take(i as int));
        let t = temps[i] as i64;
        assert(0 <= t * t <= 0x4000_0000_0000_0000) by (nonlinear_arith)
            requires
                -0x8000_0000 <= t < 0x8000_0000,
        ;
        sum = sum + t;
        sum_sq = sum_sq + (t * t) as u128;
        i = i + 1;
    }
    assert(ts.take(i as int) =~= ts);
    PositionStats { count: i as u64, sum, sum_sq }
}

/// One-sided z-score of a chip at temperature `temp` against the statistics
/// of its position, in `SCALE` units.
pub fn hot_zscore(temp: i32, stats: &PositionStats) -> (r: u64)
    requires
        stats.within_bounds(),
    ensures
        r as int == hot_zscore_milli(
            temp as int,
            stats.count as int,
            stats.sum as int,
            stats.sum_sq as int,
        ),
        stats.count * temp - stats.sum > 0 ==> r >= 1,
{
    let n = stats.count as i128;
    let s = stats.sum as i128;
    let q = stats.sum_sq as i128;
    let t = temp as i128;
    assert(-0x8_0000_0000_0000 <= n * t <= 0x8_0000_0000_0000) by (nonlinear_arith)
        requires
            0 <= n <= 0x10_0000,
            -0x8000_0000 <= t < 0x8000_0000,
    ;
    let dev = n * t - s;
    if n == 0 || dev <= 0 {
        return 0;
    }
    assert(n * q <= 0x40_0000_0000_0000_0000_0000_0000) by (nonlinear_arith)
        requires
            0 <= n <= 0x10_0000,
            0 <= q <= n * 0x4000_0000_0000_0000,
    ;
    assert(0 <= s * s <= 0x40_0000_0000_0000_0000_0000_0000) by (nonlinear_arith)
        requires
            0 <= n <= 0x10_0000,
            -(n * 0x8000_0000) <= s <= n * 0x8000_0000,
    ;
    assert(n * n <= 0x100_0000_0000) by (nonlinear_arith)
        requires
            0 <= n <= 0x10_0000,
    ;
    let var = n * q - s * s;
    let scale = SCALE as i128;
    let rounded: u64 = if 4 * var < n * n {
        assert(0 < scale * dev <= 1000 * 0x10_0000_0000_0000) by (nonlinear_arith)
            requires
                scale == 1000,
                0 < dev <= 0x10_0000_0000_0000,
        ;
        let d = scale * dev / n;
        if d < 3 * scale {
            d as u64
        } else {
            (3 * scale) as u64
        }
    } else {
        assert(0 < scale * dev <= 1000 * 0x10_0000_0000_0000) by (nonlinear_arith)
            requires
                scale == 1000,
                0 < dev <= 0x10_0000_0000_0000,
        ;
        let sd = scale * dev;
        assert(0 <= sd * sd <= 1_000_000 * 0x100_0000_0000_0000_0000_0000_0000) by (nonlinear_arith)
            requires
                0 < sd <= 1000 * 0x10_0000_0000_0000,
        ;
        assert(n * n >= 1) by (nonlinear_arith)
            requires
                n >= 1,
        ;
        let x = (sd * sd) as u128;
        floor_sqrt_u128(x / (var as u128))
    };
    if rounded < 1 {
        1
    } else {
        rounded
    }
}

/// Nonce deficit, in `SCALE` units of a percent, of a chip that found
/// `nonce` nonces on a board whose `count` chips found `total` together:
/// with `avg = total / count`, 0 when `avg <= 0` or `nonce >= avg`, else
/// `(avg - nonce) / avg * 100`, rounded down.
pub open spec fn nonce_deficit_milli(nonce: int, total: int, count: int) -> int {
    if total <= 0 || nonce * count >= total {
        0
    } else {
        100 * SCALE * (total - nonce * count) / total
    }
}

/// What a board's chips found together: the basis of each chip's deficit.
#[derive(Debug, Clone, Copy, PartialEq, Eq, Structural)]
pub struct NonceBaseline {
    pub total: i128,
    pub count: u64,
}

impl NonceBaseline {
    /// The sizes that a baseline of at most `MAX_CHIPS` 64-bit counts can
    /// reach.
    pub open spec fn within_bounds(self) -> bool {
        &&& self.count <= MAX_CHIPS
        &&& -(self.count * 0x8000_0000_0000_0000) <= self.total <= self.count
            * 0x8000_0000_0000_0000
    }
}

/// Total and number of the nonce counts of a board's chips.
pub fn slot_nonce_baseline(chips: &Vec<Chip>) -> (r: NonceBaseline)
    requires
        chips@.len() <= MAX_CHIPS,
    ensures
        r.count == chips@.len(),
        r.total == sum_of(nonces_of(chips@)),
        r.within_bounds(),
{
    let ghost ns = nonces_of(chips@);
    let mut total: i128 = 0;
    let mut i: usize = 0;
    while i < chips.len()
        invariant
            chips@.len() <= MAX_CHIPS,
            i <= chips@.len(),
            ns == nonces_of(chips@),
            total == sum_of(ns.take(i as int)),
            -(i * 0x8000_0000_0000_0000) <= total <= i * 0x8000_0000_0000_0000,
        decreases chips@.len() - i,
    {
        assert(ns.take(i as int + 1).drop_last() =~= ns.take(i as int));
        total = total + chips[i].nonce as i128;
        i = i + 1;
    }
    assert(ns.take(i as int) =~= ns);
    NonceBaseline { total, count: i as u64 }
}

/// Percentage by which a chip's nonce count falls short of its board's
/// average, in `SCALE` units of a percent.
pub fn nonce_deficit(nonce: i64, base: &NonceBaseline) -> (r: u128)
    requires
        base.within_bounds(),
    ensures
        r as int == nonce_deficit_milli(nonce as int, base.total as int, base.count as int),
{
    let n = nonce as i128;
    let c = base.count as i128;
    assert(-0x8000_0000_0000_0000_0000_0000 <= n * c <= 0x8000_0000_0000_0000_0000_0000) by (nonlinear_arith)
        requires
            0 <= c <= 0x1_0000_0000,
            -0x8000_0000_0000_0000 <= n < 0x8000_0000_0000_0000,
    ;
    if base.total <= 0 || n * c >= base.total {
        return 0;
    }
    let short = base.total - n * c;
    let scale = (100 * SCALE) as i128;
    assert(0 < scale * short <= 100_000 * 0x1_0000_0000_0000_0000_0000_0000) by (nonlinear_arith)
        requires
            scale == 100_000,
            0 < short <= 0x1_0000_0000_0000_0000_0000_0000,
    ;
    (scale * short / base.total) as u128
}

/// Scores of one chip. Each is a fixed-point value in `SCALE` units.
#[derive(Debug, Clone, Copy, Default, PartialEq, Eq, Structural)]
pub struct ChipAnalysis {
    /// How much hotter than its upstream and row neighbours the chip is, in
    /// degrees; 0 when it is not hotter.
    pub gradient: u64,
    /// How many standard deviations hotter than the same position on the
    /// other boards the chip is; 0 when it is not hotter.
    pub cross_slot_zscore: u64,
    /// How far, in percent, the chip's nonce count falls below its board's
    /// average; 0 when it does not.
    pub nonce_deficit: u128,
}

/// `a` holds the scores of chip `i` among `chips`, with `stats[i]` the
/// statistics of its position across boards; past the end of `stats` the
/// chip's cross-slot z-score is 0.
pub open spec fn scores_match(
    a: ChipAnalysis,
    chips: Seq<Chip>,
    cpd: int,
    i: int,
    stats: Seq<PositionStats>,
) -> bool {
    if cpd == 0 {
        a.gradient == 0 && a.cross_slot_zscore == 0 && a.nonce_deficit == 0
    } else {
        &&& a.gradient as int == gradient_milli(chips[i].temp as int, neighbor_temps(chips, i, cpd))
        &&& a.cross_slot_zscore as int == if i < stats.len() {
            hot_zscore_milli(
                chips[i].temp as int,
                stats[i].count as int,
                stats[i].sum as int,
                stats[i].sum_sq as int,
            )
        } else {
            0
        }
        &&& a.nonce_deficit as int == nonce_deficit_milli(
            chips[i].nonce as int,
            sum_of(nonces_of(chips)),
            chips.len() as int,
        )
    }
}

/// Temperatures of the chips that the chip at `idx` is compared with.
fn neighbor_temps_of(chips: &Vec<Chip>, idx: usize, cpd: usize) -> (r: Vec<i32>)
    requires
        cpd > 0,
        idx < chips@.len(),
    ensures
        r@.map_values(|t: i32| t as int) == neighbor_temps(chips@, idx as int, cpd as int),
        r@.len() <= 3,
{
    let nbr = upstream_neighbor_indices(idx, cpd, chips.len());
    let ghost want = neighbor_temps(chips@, idx as int, cpd as int);
    let mut r: Vec<i32> = Vec::with_capacity(3);
    let mut k: usize = 0;
    while k < nbr.len()
        invariant
            k <= nbr@.len() <= 3,
            nbr@.len() == neighbor_indices_spec(idx as int, cpd as int, chips@.len() as int).len(),
            forall|j: int|
                0 <= j < nbr@.len() ==> nbr@[j] as int == #[trigger] neighbor_indices_spec(
                    idx as int,
                    cpd as int,
                    chips@.len() as int,
                )[j],
            forall|j: int| 0 <= j < nbr@.len() ==> #[trigger] nbr@[j] < chips@.len(),
            want == neighbor_temps(chips@, idx as int, cpd as int),
            r@.len() == k,
            forall|j: int| 0 <= j < k ==> #[trigger] r@[j] as int == want[j],
        decreases nbr@.len() - k,
    {
        r.push(chips[nbr[k]].temp);
        k = k + 1;
    }
    assert(r@.map_values(|t: i32| t as int) =~= want);
    r
}

/// Scores of every chip of one board, given the statistics of each flat
/// position across all boards.
pub fn analyze_single_slot(slot: &Slot, chips_per_domain: usize, stats: &Vec<PositionStats>) -> (r:
    Vec<ChipAnalysis>)
    requires
        slot.chips@.len() <= MAX_CHIPS,
        forall|q: int| 0 <= q < stats@.len() ==> #[trigger] stats@[q].within_bounds(),
    ensures
        r@.len() == slot.chips@.len(),
        forall|i: int|
            0 <= i < r@.len() ==> #[trigger] scores_match(
                r@[i],
                slot.chips@,
                chips_per_domain as int,
                i,
                stats@,
            ),
{
    let chips = &slot.chips;
    let n = chips.len();
    let mut out: Vec<ChipAnalysis> = Vec::with_capacity(n);
    if n == 0 || chips_per_domain == 0 {
        let mut i: usize = 0;
        while i < n
            invariant
                i <= n == chips@.len(),
                chips_per_domain == 0 || n == 0,
                out@.len() == i,
                forall|j: int|
                    0 <= j < i ==> #[trigger] out@[j] == (ChipAnalysis {
                        gradient: 0,
                        cross_slot_zscore: 0,
                        nonce_deficit: 0,
                    }),
            decreases n - i,
        {
            out.push(ChipAnalysis { gradient: 0, cross_slot_zscore: 0, nonce_deficit: 0 });
            i = i + 1;
        }
        return out;
    }
    let base = slot_nonce_baseline(chips);
    let mut i: usize = 0;
    while i < n
        invariant
            i <= n == chips@.len(),
            chips == &slot.chips,
            n <= MAX_CHIPS,
            chips_per_domain > 0,
            forall|q: int| 0 <= q < stats@.len() ==> #[trigger] stats@[q].within_bounds(),
            base.count == n,
            base.total == sum_of(nonces_of(chips@)),
            base.within_bounds(),
            out@.len() == i,
            forall|j: int|
                0 <= j < i ==> #[trigger] scores_match(
                    out@[j],
                    chips@,
                    chips_per_domain as int,
                    j,
                    stats@,
                ),
        decreases n - i,
    {
        let chip = &chips[i];
        let temps = neighbor_temps_of(chips, i, chips_per_domain);
        let gradient = hot_gradient(chip.temp, &temps);
        let cross_slot_zscore = if i < stats.len() {
            hot_zscore(chip.temp, &stats[i])
        } else {
            0
        };
        let nonce_deficit = nonce_deficit(chip.nonce, &base);
        out.push(ChipAnalysis { gradient, cross_slot_zscore, nonce_deficit });
        i = i + 1;
    }
    out
}

/// `out` holds, for each board of `slots` in order, one record per chip in
/// order: all zero when `cpd` is 0, else the chip's gradient against its
/// upstream and row neighbours, its z-score against the same flat position
/// on every board that has one, and its nonce deficit against its board.
pub open spec fn is_analysis_of(slots: Seq<Slot>, cpd: int, out: Seq<Vec<ChipAnalysis>>) -> bool {
    &&& out.len() == slots.len()
    &&& forall|s: int| 0 <= s < slots.len() ==> #[trigger] out[s]@.len() == slots[s].chips@.len()
    &&& forall|s: int, i: int|
        0 <= s < slots.len() && 0 <= i < slots[s].chips@.len() ==> #[trigger] chip_scores_match(
            out[s]@[i],
            slots,
            cpd,
            s,
            i,
        )
}

/// `a` holds the scores of chip `i` of board `s`.
pub open spec fn chip_scores_match(a: ChipAnalysis, slots: Seq<Slot>, cpd: int, s: int, i: int) -> bool {
    let chips = slots[s].chips@;
    let xs = samples_at(slots, i);
    if cpd == 0 {
        a.gradient == 0 && a.cross_slot_zscore == 0 && a.nonce_deficit == 0
    } else {
        &&& a.gradient as int == gradient_milli(chips[i].temp as int, neighbor_temps(chips, i, cpd))
        &&& a.cross_slot_zscore as int == hot_zscore_milli(
            chips[i].temp as int,
            xs.len() as int,
            sum_of(xs),
            sum_sq_of(xs),
        )
        &&& a.nonce_deficit as int == nonce_deficit_milli(
            chips[i].nonce as int,
            sum_of(nonces_of(chips)),
            chips.len() as int,
        )
    }
}

/// Temperatures at flat position `p` of every board that has a chip there.
fn temps_at(slots: &Vec<Slot>, p: usize) -> (r: Vec<i32>)
    ensures
        r@.map_values(|t: i32| t as int) == samples_at(slots@, p as int),
        r@.len() <= slots@.len(),
{
    let mut r: Vec<i32> = Vec::new();
    let mut s: usize = 0;
    while s < slots.len()
        invariant
            s <= slots@.len(),
            r@.map_values(|t: i32| t as int) == samples_at(slots@.take(s as int), p as int),
            r@.len() <= s,
        decreases slots@.len() - s,
    {
        let ghost before = r@;
        assert(slots@.take(s as int + 1).drop_last() =~= slots@.take(s as int));
        if p < slots[s].chips.len() {
            r.push(slots[s].chips[p].temp);
            assert(r@.map_values(|t: i32| t as int) =~= before.map_values(|t: i32| t as int).push(
                slots@[s as int].chips@[p as int].temp as int,
            ));
        }
        s = s + 1;
    }
    assert(slots@.take(s as int) =~= slots@);
    r
}

/// Scores every chip of every board. The statistics of each flat position
/// are built once across all boards; each board is then scored on its own.
pub fn analyze_all_slots(slots: &Vec<Slot>, chips_per_domain: usize) -> (r: Vec<Vec<ChipAnalysis>>)
    requires
        slots@.len() <= MAX_SLOTS,
        forall|s: int| 0 <= s < slots@.len() ==> #[trigger] slots@[s].chips@.len() <= MAX_CHIPS,
    ensures
        is_analysis_of(slots@, chips_per_domain as int, r@),
{
    let mut r: Vec<Vec<ChipAnalysis>> = Vec::with_capacity(slots.len());
    if slots.len() == 0 {
        return r;
    }
    let mut max_chips: usize = 0;
    let mut s: usize = 0;
    while s < slots.len()
        invariant
            s <= slots@.len(),
            forall|t: int| 0 <= t < s ==> #[trigger] slots@[t].chips@.len() <= max_chips,
        decreases slots@.len() - s,
    {
        if slots[s].chips.len() > max_chips {
            max_chips = slots[s].chips.len();
        }
        s = s + 1;
    }
    let mut stats: Vec<PositionStats> = Vec::with_capacity(max_chips);
    let mut p: usize = 0;
    while p < max_chips
        invariant
            p <= max_chips,
            slots@.len() <= MAX_SLOTS,
            stats@.len() == p,
            forall|q: int| 0 <= q < p ==> (#[trigger] stats@[q]).describes(samples_at(slots@, q)),
            forall|q: int| 0 <= q < p ==> (#[trigger] stats@[q]).within_bounds(),
        decreases max_chips - p,
    {
        let temps = temps_at(slots, p);
        stats.push(position_stats(&temps));
        p = p + 1;
    }
    let mut s: usize = 0;
    while s < slots.len()
        invariant
            s <= slots@.len(),
            stats@.len() == max_chips,
            forall|t: int| 0 <= t < slots@.len() ==> #[trigger] slots@[t].chips@.len() <= max_chips,
            forall|t: int| 0 <= t < slots@.len() ==> #[trigger] slots@[t].chips@.len() <= MAX_CHIPS,
            forall|q: int|
                0 <= q < max_chips ==> (#[trigger] stats@[q]).describes(samples_at(slots@, q)),
            forall|q: int| 0 <= q < max_chips ==> (#[trigger] stats@[q]).within_bounds(),
            r@.len() == s,
            forall|t: int| 0 <= t < s ==> #[trigger] r@[t]@.len() == slots@[t].chips@.len(),
            forall|t: int, i: int|
                0 <= t < s && 0 <= i < slots@[t].chips@.len() ==> #[trigger] chip_scores_match(
                    r@[t]@[i],
                    slots@,
                    chips_per_domain as int,
                    t,
                    i,
                ),
        decreases slots@.len() - s,
    {
        let scores = analyze_single_slot(&slots[s], chips_per_domain, &stats);
        proof {
            assert forall|i: int| 0 <= i < slots@[s as int].chips@.len() implies chip_scores_match(
                scores@[i],
                slots@,
                chips_per_domain as int,
                s as int,
                i,
            ) by {
                assert(scores_match(
                    scores@[i],
                    slots@[s as int].chips@,
                    chips_per_domain as int,
                    i,
                    stats@,
                ));
                assert(stats@[i].describes(samples_at(slots@, i)));
            }
        }
        r.push(scores);
        s = s + 1;
    }
    r
}

} // verus!
