//! Board topology: where a chip sits given its flat index, which section of
//! the snake-routed board its domain belongs to, and which chips are its
//! airflow-upstream and row neighbours.
use vstd::arithmetic::div_mod::{lemma_fundamental_div_mod, lemma_fundamental_div_mod_converse};
use vstd::prelude::*;

verus! {

/// Number of domains needed to hold `chip_count` chips, `cpd` to a domain.
pub open spec fn num_domains_spec(chip_count: int, cpd: int) -> int {
    (chip_count + cpd - 1) / cpd
}

/// Number of domains on the board that fall in the bottom section.
pub open spec fn bottom_domains_spec(num_domains: int) -> int {
    let remaining = if num_domains > 0 { num_domains - 1 } else { 0 };
    1 + remaining / 2
}

/// Number of domains in the top section.
pub open spec fn top_domains_spec(num_domains: int) -> int {
    let remaining = if num_domains > 0 { num_domains - 1 } else { 0 };
    remaining - remaining / 2
}

/// Whether a chip at flat index `idx` sits in the top section of a board of
/// `chip_count` chips, `cpd` to a domain.
pub open spec fn is_top_spec(idx: int, cpd: int, chip_count: int) -> bool {
    idx / cpd >= bottom_domains_spec(num_domains_spec(chip_count, cpd))
}

/// Flat indices of the chips a chip is compared with: first its
/// airflow-upstream neighbour (the next lower domain in the bottom section,
/// the next higher domain in the top section), then the chips in the rows
/// just below and just above it in its own domain. Indices past the last
/// chip are left out. The last bottom domain and the first top domain sit
/// side by side at the board's seam, but are not compared with each other.
pub open spec fn neighbor_indices_spec(idx: int, cpd: int, chip_count: int) -> Seq<int> {
    let domain = idx / cpd;
    let row = idx % cpd;
    let upstream = if is_top_spec(idx, cpd, chip_count) {
        if domain + 1 < num_domains_spec(chip_count, cpd) && idx + cpd < chip_count {
            seq![idx + cpd]
        } else {
            Seq::<int>::empty()
        }
    } else {
        if domain > 0 {
            seq![idx - cpd]
        } else {
            Seq::<int>::empty()
        }
    };
    let below = if row > 0 { seq![idx - 1] } else { Seq::<int>::empty() };
    let above = if row + 1 < cpd && idx + 1 < chip_count {
        seq![idx + 1]
    } else {
        Seq::<int>::empty()
    };
    upstream + below + above
}

/// Where a chip sits on its board.
#[derive(Debug, Clone, Copy, PartialEq, Eq, Structural)]
pub struct Coordinates {
    pub domain: usize,
    pub row: usize,
    pub is_top_section: bool,
}

/// Domains in the bottom and in the top section of a board with
/// `num_domains` domains: the first domain and any odd leftover go to the
/// bottom.
pub fn section_split(num_domains: usize) -> (r: (usize, usize))
    ensures
        r.0 == bottom_domains_spec(num_domains as int),
        r.1 == top_domains_spec(num_domains as int),
{
    let remaining = num_domains.saturating_sub(1);
    (1 + remaining / 2, remaining - remaining / 2)
}

/// Domain, row and section of the chip at flat index `idx`.
pub fn coordinates_for(idx: usize, cpd: usize, chip_count: usize) -> (r: Coordinates)
    requires
        cpd > 0,
    ensures
        r.domain == idx / cpd,
        r.row == idx % cpd,
        r.is_top_section == is_top_spec(idx as int, cpd as int, chip_count as int),
{
    let (bottom, _top) = section_split(num_domains(chip_count, cpd));
    let domain = idx / cpd;
    Coordinates { domain, row: idx % cpd, is_top_section: domain >= bottom }
}

/// Flat indices of the chips that the chip at `idx` is compared with, in the
/// order upstream, row below, row above.
pub fn upstream_neighbor_indices(idx: usize, cpd: usize, chip_count: usize) -> (r: Vec<usize>)
    requires
        cpd > 0,
        idx < chip_count,
    ensures
        r@.len() == neighbor_indices_spec(idx as int, cpd as int, chip_count as int).len(),
        forall|k: int|
            0 <= k < r@.len() ==> r@[k] as int == #[trigger] neighbor_indices_spec(
                idx as int,
                cpd as int,
                chip_count as int,
            )[k],
        forall|k: int| 0 <= k < r@.len() ==> #[trigger] r@[k] < chip_count,
        r@.len() <= 3,
{
    let c = coordinates_for(idx, cpd, chip_count);
    let nd = num_domains(chip_count, cpd);
    let mut r: Vec<usize> = Vec::with_capacity(3);
    proof {
        lemma_fundamental_div_mod(idx as int, cpd as int);
        assert(idx as int / cpd as int <= idx as int) by (nonlinear_arith)
            requires
                idx as int == cpd as int * (idx as int / cpd as int) + idx as int % cpd as int,
                cpd > 0,
                idx as int % cpd as int >= 0,
                idx >= 0,
        ;
    }
    if c.is_top_section {
        if c.domain + 1 < nd && cpd < chip_count - idx {
            r.push(idx + cpd);
        }
    } else {
        if c.domain > 0 {
            proof {
                assert(idx as int >= cpd as int) by (nonlinear_arith)
                    requires
                        idx as int == cpd as int * (idx as int / cpd as int) + idx as int % cpd as int,
                        idx as int / cpd as int >= 1,
                        cpd > 0,
                        idx as int % cpd as int >= 0,
                ;
            }
            r.push(idx - cpd);
        }
    }
    if c.row > 0 {
        r.push(idx - 1);
    }
    if c.row + 1 < cpd && idx + 1 < chip_count {
        r.push(idx + 1);
    }
    r
}

/// Number of domains on the board, rounding up for a partial last domain.
pub fn num_domains(chip_count: usize, cpd: usize) -> (r: usize)
    requires
        cpd > 0,
    ensures
        r as int == num_domains_spec(chip_count as int, cpd as int),
{
    let q = chip_count / cpd;
    proof {
        lemma_ceil_div(chip_count as int, cpd as int);
    }
    if chip_count % cpd == 0 {
        q
    } else {
        q + 1
    }
}

/// Rounding up a division adds one exactly when there is a remainder.
proof fn lemma_ceil_div(n: int, d: int)
    requires
        n >= 0,
        d > 0,
    ensures
        (n + d - 1) / d == if n % d == 0 { n / d } else { n / d + 1 },
        n % d != 0 ==> n / d < n,
{
    lemma_fundamental_div_mod(n, d);
    let q = n / d;
    let r = n % d;
    assert(0 <= r < d);
    if r == 0 {
        assert(n + d - 1 == q * d + (d - 1)) by (nonlinear_arith)
            requires
                n == d * q + r,
                r == 0,
        ;
        lemma_fundamental_div_mod_converse(n + d - 1, d, q, d - 1);
    } else {
        assert(n + d - 1 == (q + 1) * d + (r - 1)) by (nonlinear_arith)
            requires
                n == d * q + r,
        ;
        lemma_fundamental_div_mod_converse(n + d - 1, d, q + 1, r - 1);
        assert(q < n) by (nonlinear_arith)
            requires
                n == d * q + r,
                d > 0,
                0 < r,
                n >= 0,
        ;
    }
}

/// `cpd` divides `chip_count` into a plausible number of domains (20 to 100).
pub open spec fn plausible_split(chip_count: int, cpd: int) -> bool {
    chip_count % cpd == 0 && 20 <= chip_count / cpd <= 100
}

/// Chips per domain guessed from a board's chip count: the smallest of 2 to
/// 6 that splits it into a plausible number of domains; else the smallest
/// of 2 to 6 that divides it; else 3.
pub open spec fn inferred_cpd(chip_count: int) -> int {
    if plausible_split(chip_count, 2) {
        2
    } else if plausible_split(chip_count, 3) {
        3
    } else if plausible_split(chip_count, 4) {
        4
    } else if plausible_split(chip_count, 5) {
        5
    } else if plausible_split(chip_count, 6) {
        6
    } else if chip_count % 2 == 0 {
        2
    } else if chip_count % 3 == 0 {
        3
    } else if chip_count % 4 == 0 {
        4
    } else if chip_count % 5 == 0 {
        5
    } else if chip_count % 6 == 0 {
        6
    } else {
        3
    }
}

/// Chips per domain for a board model that no table knows, guessed from the
/// number of chips on its first board.
pub fn infer_chips_per_domain(chip_count: usize) -> (r: usize)
    ensures
        r == inferred_cpd(chip_count as int),
{
    let mut cpd: usize = 2;
    while cpd <= 6
        invariant
            2 <= cpd <= 7,
            forall|c: int| 2 <= c < cpd ==> !#[trigger] plausible_split(chip_count as int, c),
        decreases 7 - cpd,
    {
        if chip_count % cpd == 0 && 20 <= chip_count / cpd && chip_count / cpd <= 100 {
            return cpd;
        }
        cpd = cpd + 1;
    }
    assert(!plausible_split(chip_count as int, 2));
    assert(!plausible_split(chip_count as int, 3));
    assert(!plausible_split(chip_count as int, 4));
    assert(!plausible_split(chip_count as int, 5));
    assert(!plausible_split(chip_count as int, 6));
    let mut cpd: usize = 2;
    while cpd <= 6
        invariant
            2 <= cpd <= 7,
            forall|c: int| 2 <= c < cpd ==> #[trigger] (chip_count as int % c) != 0,
            !plausible_split(chip_count as int, 2),
            !plausible_split(chip_count as int, 3),
            !plausible_split(chip_count as int, 4),
            !plausible_split(chip_count as int, 5),
            !plausible_split(chip_count as int, 6),
        decreases 7 - cpd,
    {
        if chip_count % cpd == 0 {
            return cpd;
        }
        cpd = cpd + 1;
    }
    assert(chip_count as int % 2 != 0);
    assert(chip_count as int % 3 != 0);
    assert(chip_count as int % 4 != 0);
    assert(chip_count as int % 5 != 0);
    assert(chip_count as int % 6 != 0);
    3
}

/// Cells of one drawn row of a section: the chips at `row` of domains
/// `start..end`, left to right, or right to left when `reversed`. A cell
/// past the last chip is blank.
pub open spec fn section_row(
    chip_count: int,
    cpd: int,
    start: int,
    end: int,
    reversed: bool,
    row: int,
) -> Seq<Option<usize>> {
    Seq::new(
        (end - start) as nat,
        |i: int|
            {
                let d = if reversed { end - 1 - i } else { start + i };
                if d * cpd + row < chip_count {
                    Some((d * cpd + row) as usize)
                } else {
                    None
                }
            },
    )
}

/// The drawn rows of a section, top to bottom: row 0 first, or the last row
/// first when `bottom_up`.
pub open spec fn section_rows(
    chip_count: int,
    cpd: int,
    start: int,
    end: int,
    reversed: bool,
    bottom_up: bool,
) -> Seq<Seq<Option<usize>>> {
    Seq::new(
        cpd as nat,
        |k: int| section_row(chip_count, cpd, start, end, reversed, if bottom_up { cpd - 1 - k } else { k }),
    )
}

/// A board drawn as it is built: the top section above, its domains left
/// to right; the bottom section below, its domains right to left so that
/// the first chip sits at the right. Each cell holds the flat index of the
/// chip drawn there, or nothing.
pub open spec fn board_layout_spec(chip_count: int, cpd: int, bottom_up: bool) -> Seq<Seq<Option<usize>>> {
    let nd = if cpd > 0 { num_domains_spec(chip_count, cpd) } else { 1 };
    let bottom = bottom_domains_spec(nd);
    let top = top_domains_spec(nd);
    let upper = if top > 0 {
        section_rows(chip_count, cpd, bottom, nd, false, bottom_up)
    } else {
        Seq::empty()
    };
    upper + section_rows(chip_count, cpd, 0, bottom, true, bottom_up)
}

/// The rows of a drawing, as sequences.
pub open spec fn rows_view(rows: Seq<Vec<Option<usize>>>) -> Seq<Seq<Option<usize>>> {
    rows.map_values(|v: Vec<Option<usize>>| v@)
}

/// One drawn row of a section.
fn layout_row(chip_count: usize, cpd: usize, start: usize, end: usize, reversed: bool, row: usize) -> (r:
    Vec<Option<usize>>)
    requires
        start <= end,
        row < cpd,
        end as int * cpd as int <= chip_count as int + cpd as int,
    ensures
        r@ == section_row(chip_count as int, cpd as int, start as int, end as int, reversed, row as int),
{
    let mut r: Vec<Option<usize>> = Vec::with_capacity(end - start);
    let mut i: usize = 0;
    while i < end - start
        invariant
            start <= end,
            row < cpd,
            end as int * cpd as int <= chip_count as int + cpd as int,
            i <= end - start,
            r@ =~= section_row(chip_count as int, cpd as int, start as int, end as int, reversed, row as int).take(i as int),
        decreases end - start - i,
    {
        let d = if reversed { end - 1 - i } else { start + i };
        assert(d * cpd <= chip_count) by (nonlinear_arith)
            requires
                d < end,
                end * cpd <= chip_count + cpd,
        ;
        let base = d * cpd;
        if row < chip_count - base {
            r.push(Some(base + row));
        } else {
            r.push(None);
        }
        i = i + 1;
    }
    assert(r@ =~= section_row(chip_count as int, cpd as int, start as int, end as int, reversed, row as int));
    r
}

/// The drawn rows of a section, top to bottom.
fn layout_section(
    chip_count: usize,
    cpd: usize,
    start: usize,
    end: usize,
    reversed: bool,
    bottom_up: bool,
    rows: &mut Vec<Vec<Option<usize>>>,
)
    requires
        start <= end,
        end as int * cpd as int <= chip_count as int + cpd as int,
    ensures
        rows_view(final(rows)@) == rows_view(old(rows)@) + section_rows(chip_count as int, cpd as int, start as int, end as int, reversed, bottom_up),
{
    let ghost before = rows_view(old(rows)@);
    let mut k: usize = 0;
    while k < cpd
        invariant
            start <= end,
            end as int * cpd as int <= chip_count as int + cpd as int,
            k <= cpd,
            rows_view(rows@) =~= before + section_rows(chip_count as int, cpd as int, start as int, end as int, reversed, bottom_up).take(k as int),
        decreases cpd - k,
    {
        let row = if bottom_up { cpd - 1 - k } else { k };
        let cells = layout_row(chip_count, cpd, start, end, reversed, row);
        let ghost pre = rows@;
        rows.push(cells);
        assert(rows_view(rows@) =~= rows_view(pre).push(cells@));
        k = k + 1;
    }
    assert(section_rows(chip_count as int, cpd as int, start as int, end as int, reversed, bottom_up).take(k as int)
        =~= section_rows(chip_count as int, cpd as int, start as int, end as int, reversed, bottom_up));
}

/// The flat chip index drawn at each cell of a board's map, rows top to
/// bottom; within each domain row 0 is drawn first, or last when
/// `bottom_up`.
pub fn board_layout(chip_count: usize, cpd: usize, bottom_up: bool) -> (r: Vec<Vec<Option<usize>>>)
    ensures
        rows_view(r@) == board_layout_spec(chip_count as int, cpd as int, bottom_up),
{
    let nd = if cpd > 0 { num_domains(chip_count, cpd) } else { 1 };
    let (bottom, top) = section_split(nd);
    proof {
        if cpd > 0 {
            lemma_domains_cover(chip_count as int, cpd as int);
        }
    }
    let mut rows: Vec<Vec<Option<usize>>> = Vec::new();
    assert(rows_view(rows@) =~= Seq::<Seq<Option<usize>>>::empty());
    if top > 0 {
        layout_section(chip_count, cpd, bottom, nd, false, bottom_up, &mut rows);
    }
    layout_section(chip_count, cpd, 0, bottom, true, bottom_up, &mut rows);
    assert(rows_view(rows@) =~= board_layout_spec(chip_count as int, cpd as int, bottom_up));
    rows
}

/// The domains of a board, and those of its bottom section, hold at most
/// one domain's worth of chips more than the board has.
proof fn lemma_domains_cover(chip_count: int, cpd: int)
    requires
        chip_count >= 0,
        cpd > 0,
    ensures
        num_domains_spec(chip_count, cpd) * cpd <= chip_count + cpd,
        bottom_domains_spec(num_domains_spec(chip_count, cpd)) * cpd <= chip_count + cpd,
{
    let n = chip_count + cpd - 1;
    let nd = num_domains_spec(chip_count, cpd);
    lemma_fundamental_div_mod(n, cpd);
    assert(nd * cpd <= n) by (nonlinear_arith)
        requires
            nd == n / cpd,
            n == cpd * (n / cpd) + n % cpd,
            n % cpd >= 0,
    ;
    assert(nd >= 0) by (nonlinear_arith)
        requires
            nd == n / cpd,
            n >= 0,
            cpd > 0,
    ;
    let bottom = bottom_domains_spec(nd);
    if nd >= 1 {
        assert(bottom <= nd);
        assert(bottom * cpd <= nd * cpd) by (nonlinear_arith)
            requires
                bottom <= nd,
                cpd > 0,
        ;
    } else {
        assert(bottom == 1);
        assert(bottom * cpd == cpd) by (nonlinear_arith)
            requires
                bottom == 1,
        ;
    }
}

} // verus!
