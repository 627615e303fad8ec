//! Facts about the analysis that hold for every input.
use crate::analysis::{
    chip_scores_match, gradient_milli, is_analysis_of, neighbor_temps, nonce_deficit_milli,
    nonces_of, samples_at, sum_of, ChipAnalysis, SCALE,
};
use crate::models::Slot;
use crate::topology::neighbor_indices_spec;
use vstd::arithmetic::div_mod::lemma_fundamental_div_mod;
use vstd::prelude::*;

verus! {

/// A sequence whose items all equal `c` sums to its length times `c`.
pub proof fn lemma_sum_of_constant(s: Seq<int>, c: int)
    requires
        forall|i: int| 0 <= i < s.len() ==> #[trigger] s[i] == c,
    ensures
        sum_of(s) == s.len() * c,
    decreases s.len(),
{
    if s.len() > 0 {
        lemma_sum_of_constant(s.drop_last(), c);
        assert(s.drop_last().len() * c + c == s.len() * c) by (nonlinear_arith)
            requires
                s.drop_last().len() + 1 == s.len(),
        ;
    }
}

/// Every index a chip is compared with names a chip of the board.
pub proof fn lemma_neighbor_indices_in_range(idx: int, cpd: int, chip_count: int)
    requires
        cpd > 0,
        0 <= idx < chip_count,
    ensures
        forall|k: int|
            0 <= k < neighbor_indices_spec(idx, cpd, chip_count).len() ==> 0
                <= #[trigger] neighbor_indices_spec(idx, cpd, chip_count)[k] < chip_count,
{
    lemma_fundamental_div_mod(idx, cpd);
    if idx / cpd > 0 {
        assert(idx >= cpd) by (nonlinear_arith)
            requires
                idx == cpd * (idx / cpd) + idx % cpd,
                idx / cpd >= 1,
                cpd > 0,
                idx % cpd >= 0,
        ;
    }
}

/// On a board whose chips all read the same temperature, no chip has a
/// gradient.
pub proof fn lemma_uniform_board_has_no_gradient(
    slots: Seq<Slot>,
    cpd: int,
    out: Seq<Vec<ChipAnalysis>>,
    s: int,
)
    requires
        is_analysis_of(slots, cpd, out),
        cpd >= 0,
        0 <= s < slots.len(),
        forall|i: int|
            0 <= i < slots[s].chips@.len() ==> #[trigger] slots[s].chips@[i].temp
                == slots[s].chips@[0].temp,
    ensures
        forall|i: int| 0 <= i < slots[s].chips@.len() ==> (#[trigger] out[s]@[i]).gradient == 0,
{
    let chips = slots[s].chips@;
    assert forall|i: int| 0 <= i < chips.len() implies (#[trigger] out[s]@[i]).gradient == 0 by {
        assert(chip_scores_match(out[s]@[i], slots, cpd, s, i));
        if cpd != 0 {
            let c = chips[0].temp as int;
            let ns = neighbor_temps(chips, i, cpd);
            lemma_neighbor_indices_in_range(i, cpd, chips.len() as int);
            assert forall|k: int| 0 <= k < ns.len() implies #[trigger] ns[k] == c by {
                let j = neighbor_indices_spec(i, cpd, chips.len() as int)[k];
                assert(chips[j].temp == chips[0].temp);
            }
            lemma_sum_of_constant(ns, c);
            assert(ns.len() * (chips[i].temp as int) - sum_of(ns) == 0);
        }
    }
}

/// A chip no hotter than the mean of the chips it is compared with has no
/// gradient: cold spots are never flagged.
pub proof fn lemma_cold_spot_has_no_gradient(
    slots: Seq<Slot>,
    cpd: int,
    out: Seq<Vec<ChipAnalysis>>,
    s: int,
    i: int,
)
    requires
        is_analysis_of(slots, cpd, out),
        0 <= s < slots.len(),
        0 <= i < slots[s].chips@.len(),
        ({
            let ns = neighbor_temps(slots[s].chips@, i, cpd);
            ns.len() * slots[s].chips@[i].temp <= sum_of(ns)
        }),
    ensures
        out[s]@[i].gradient == 0,
{
    assert(chip_scores_match(out[s]@[i], slots, cpd, s, i));
}

/// A chip no hotter than the mean of its position across boards has a
/// cross-slot z-score of 0.
pub proof fn lemma_cooler_chip_has_no_zscore(
    slots: Seq<Slot>,
    cpd: int,
    out: Seq<Vec<ChipAnalysis>>,
    s: int,
    i: int,
)
    requires
        is_analysis_of(slots, cpd, out),
        0 <= s < slots.len(),
        0 <= i < slots[s].chips@.len(),
        samples_at(slots, i).len() * slots[s].chips@[i].temp <= sum_of(samples_at(slots, i)),
    ensures
        out[s]@[i].cross_slot_zscore == 0,
{
    assert(chip_scores_match(out[s]@[i], slots, cpd, s, i));
}

/// On a board whose chips all found the same number of nonces, no chip has a
/// nonce deficit.
pub proof fn lemma_uniform_nonces_have_no_deficit(
    slots: Seq<Slot>,
    cpd: int,
    out: Seq<Vec<ChipAnalysis>>,
    s: int,
)
    requires
        is_analysis_of(slots, cpd, out),
        0 <= s < slots.len(),
        forall|i: int|
            0 <= i < slots[s].chips@.len() ==> #[trigger] slots[s].chips@[i].nonce
                == slots[s].chips@[0].nonce,
    ensures
        forall|i: int|
            0 <= i < slots[s].chips@.len() ==> (#[trigger] out[s]@[i]).nonce_deficit == 0,
{
    let chips = slots[s].chips@;
    let ns = nonces_of(chips);
    if chips.len() > 0 {
        assert forall|k: int| 0 <= k < ns.len() implies #[trigger] ns[k] == chips[0].nonce by {
            assert(chips[k].nonce == chips[0].nonce);
        }
        lemma_sum_of_constant(ns, chips[0].nonce as int);
    }
    assert forall|i: int| 0 <= i < chips.len() implies (#[trigger] out[s]@[i]).nonce_deficit
        == 0 by {
        assert(chip_scores_match(out[s]@[i], slots, cpd, s, i));
        assert(chips[i].nonce == chips[0].nonce);
        assert((chips[i].nonce as int) * (chips.len() as int) == (chips.len() as int) * (
        chips[0].nonce as int)) by (nonlinear_arith)
            requires
                chips[i].nonce == chips[0].nonce,
        ;
    }
}

/// A chip at or above its board's average nonce count has no deficit.
pub proof fn lemma_above_average_has_no_deficit(
    slots: Seq<Slot>,
    cpd: int,
    out: Seq<Vec<ChipAnalysis>>,
    s: int,
    i: int,
)
    requires
        is_analysis_of(slots, cpd, out),
        0 <= s < slots.len(),
        0 <= i < slots[s].chips@.len(),
        slots[s].chips@[i].nonce * slots[s].chips@.len() >= sum_of(nonces_of(slots[s].chips@)),
    ensures
        out[s]@[i].nonce_deficit == 0,
{
    assert(chip_scores_match(out[s]@[i], slots, cpd, s, i));
}

/// The analysis is a function of its inputs: two results for the same boards
/// and geometry are equal.
pub proof fn lemma_analysis_is_deterministic(
    slots: Seq<Slot>,
    cpd: int,
    a: Seq<Vec<ChipAnalysis>>,
    b: Seq<Vec<ChipAnalysis>>,
)
    requires
        is_analysis_of(slots, cpd, a),
        is_analysis_of(slots, cpd, b),
    ensures
        a.len() == b.len(),
        forall|s: int| 0 <= s < a.len() ==> (#[trigger] a[s])@ == b[s]@,
{
    assert forall|s: int| 0 <= s < a.len() implies (#[trigger] a[s])@ == b[s]@ by {
        assert forall|i: int| 0 <= i < a[s]@.len() implies #[trigger] a[s]@[i] == b[s]@[i] by {
            assert(chip_scores_match(a[s]@[i], slots, cpd, s, i));
            assert(chip_scores_match(b[s]@[i], slots, cpd, s, i));
        }
        assert(a[s]@ =~= b[s]@);
    }
}

/// A chip at the same temperature as all its neighbours has no gradient.
pub proof fn lemma_equal_neighbors_give_no_gradient(center: int, neighbors: Seq<int>)
    requires
        forall|i: int| 0 <= i < neighbors.len() ==> #[trigger] neighbors[i] == center,
    ensures
        gradient_milli(center, neighbors) == 0,
{
    lemma_sum_of_constant(neighbors, center);
}

/// A chip with no neighbours, or no hotter than their mean, has no
/// gradient; no gradient is ever negative.
pub proof fn lemma_cold_spot_gradient_is_zero(center: int, neighbors: Seq<int>)
    ensures
        neighbors.len() == 0 || neighbors.len() * center <= sum_of(neighbors) ==> gradient_milli(
            center,
            neighbors,
        ) == 0,
        gradient_milli(center, neighbors) >= 0,
{
    let k = neighbors.len() as int;
    let excess = k * center - sum_of(neighbors);
    if k > 0 && excess > 0 {
        assert(SCALE * excess / k >= 0) by (nonlinear_arith)
            requires
                k > 0,
                excess > 0,
        ;
    }
}

/// A chip hotter than its neighbours' mean has as gradient that excess,
/// `center - sum / k`, in `SCALE` units rounded down.
pub proof fn lemma_hotspot_gradient_is_excess(center: int, neighbors: Seq<int>)
    requires
        neighbors.len() > 0,
        neighbors.len() * center > sum_of(neighbors),
    ensures
        ({
            let k = neighbors.len() as int;
            let g = gradient_milli(center, neighbors);
            g * k <= SCALE * (k * center - sum_of(neighbors)) < (g + 1) * k
        }),
{
    let k = neighbors.len() as int;
    let x = SCALE * (k * center - sum_of(neighbors));
    vstd::arithmetic::div_mod::lemma_fundamental_div_mod(x, k);
    assert(gradient_milli(center, neighbors) == x / k);
    assert((x / k) * k <= x < (x / k + 1) * k) by (nonlinear_arith)
        requires
            x == k * (x / k) + x % k,
            0 <= x % k < k,
    ;
}

/// When no chip of a board has a negative nonce count, no deficit exceeds
/// 100 percent.
pub proof fn lemma_deficit_at_most_hundred_percent(nonce: int, total: int, count: int)
    requires
        nonce >= 0,
        count >= 0,
    ensures
        0 <= nonce_deficit_milli(nonce, total, count) <= 100 * SCALE,
{
    if total > 0 && nonce * count < total {
        let short = total - nonce * count;
        assert(0 < short <= total) by (nonlinear_arith)
            requires
                short == total - nonce * count,
                nonce >= 0,
                count >= 0,
                nonce * count < total,
        ;
        assert(0 <= 100 * SCALE * short / total <= 100 * SCALE) by (nonlinear_arith)
            requires
                0 < short <= total,
                SCALE == 1000,
        ;
    }
}

} // verus!
