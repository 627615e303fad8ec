//! Reading the miner's status pages into records: the chip log (one header
//! line per board, a nonce line, then one line per chip) and the overview
//! table.
use crate::config::has_prefix;
use crate::models::{Chip, MinerData, Slot, SystemInfo};
use crate::text::{
    centi_or_zero, centi_or_zero_in, chars_of, find_char, find_char_from, find_char_in, int_or_zero,
    int_or_zero_in, int_within, occurs_at, read_int, slice_of, split_chars, split_on, trim,
    trimmed, whitespace, is_whitespace, find_run, find_run_in, find_run_from, occurs_at_spec,
    lemma_found_char_in_range, string_from, split_ws, split_ws_chars,
};
use vstd::prelude::*;

verus! {

/// `part` split at its first `:` into key and value.
pub open spec fn key_value(part: Seq<char>) -> Option<(Seq<char>, Seq<char>)> {
    match find_char(part, ':') {
        Some(p) => Some((part.take(p), part.skip(p + 1))),
        None => None,
    }
}

/// The trimmed value of the last of `parts` that reads `key: value`, keys
/// and parts compared after trimming.
pub open spec fn keyed_value(parts: Seq<Seq<char>>, key: Seq<char>) -> Option<Seq<char>>
    decreases parts.len(),
{
    if parts.len() == 0 {
        None
    } else {
        match key_value(trim(parts.last())) {
            Some(kv) => if trim(kv.0) == key {
                Some(trim(kv.1))
            } else {
                keyed_value(parts.drop_last(), key)
            },
            None => keyed_value(parts.drop_last(), key),
        }
    }
}

/// The value of the last of `words` that reads `key:value`, compared as is.
pub open spec fn word_value(words: Seq<Seq<char>>, key: Seq<char>) -> Option<Seq<char>>
    decreases words.len(),
{
    if words.len() == 0 {
        None
    } else {
        match key_value(words.last()) {
            Some(kv) => if kv.0 == key {
                Some(kv.1)
            } else {
                word_value(words.drop_last(), key)
            },
            None => word_value(words.drop_last(), key),
        }
    }
}

pub open spec fn i32_or_zero(v: Option<Seq<char>>) -> int {
    match v {
        Some(s) => int_or_zero(s, i32::MIN as int, i32::MAX as int),
        None => 0,
    }
}

pub open spec fn i64_or_zero(v: Option<Seq<char>>) -> int {
    match v {
        Some(s) => int_or_zero(s, i64::MIN as int, i64::MAX as int),
        None => 0,
    }
}

/// Whether two character sequences are equal.
fn same_chars(a: &Vec<char>, b: &Vec<char>) -> (r: bool)
    ensures
        r == (a@ == b@),
{
    if a.len() != b.len() {
        return false;
    }
    let r = occurs_at(a, b, 0);
    assert(a@.subrange(0, b@.len() as int) =~= a@);
    r
}

/// `part` split at its first `:`.
fn key_value_of(part: &Vec<char>) -> (r: Option<(Vec<char>, Vec<char>)>)
    ensures
        match r {
            Some(kv) => key_value(part@) == Some((kv.0@, kv.1@)),
            None => key_value(part@) is None,
        },
{
    let n = part.len();
    match find_char_in(part, ':', 0) {
        Some(p) => {
            proof {
                crate::text::lemma_found_char_in_range(part@, ':', 0);
                assert(find_char_from(part@, ':', 0) == Some(p as int));
            }
            assert(p < part@.len());
            let k = slice_of(part, 0, p);
            let v = slice_of(part, p + 1, n);
            assert(k@ =~= part@.take(p as int));
            assert(v@ =~= part@.skip(p + 1));
            Some((k, v))
        },
        None => None,
    }
}

/// The trimmed value of the last part that reads `key: value`.
fn keyed_value_in(parts: &Vec<Vec<char>>, key: &str) -> (r: Option<Vec<char>>)
    ensures
        match r {
            Some(v) => keyed_value(parts@.map_values(|p: Vec<char>| p@), key@) == Some(v@),
            None => keyed_value(parts@.map_values(|p: Vec<char>| p@), key@) is None,
        },
{
    let ghost all = parts@.map_values(|p: Vec<char>| p@);
    let key_chars = chars_of(key);
    let mut i: usize = parts.len();
    assert(all.take(i as int) =~= all);
    while i > 0
        invariant
            i <= parts@.len(),
            all == parts@.map_values(|p: Vec<char>| p@),
            key_chars@ == key@,
            keyed_value(all, key@) == keyed_value(all.take(i as int), key@),
        decreases i,
    {
        let ghost pre = all.take(i as int);
        assert(pre.drop_last() =~= all.take(i - 1));
        assert(pre.last() == parts@[i - 1]@);
        let part = trimmed(&parts[i - 1]);
        match key_value_of(&part) {
            Some((k, v)) => {
                let k = trimmed(&k);
                if same_chars(&k, &key_chars) {
                    return Some(trimmed(&v));
                }
            },
            None => {},
        }
        i = i - 1;
    }
    None
}

/// The value of the last word that reads `key:value`.
fn word_value_in(words: &Vec<Vec<char>>, key: &str) -> (r: Option<Vec<char>>)
    ensures
        match r {
            Some(v) => word_value(words@.map_values(|p: Vec<char>| p@), key@) == Some(v@),
            None => word_value(words@.map_values(|p: Vec<char>| p@), key@) is None,
        },
{
    let ghost all = words@.map_values(|p: Vec<char>| p@);
    let key_chars = chars_of(key);
    let mut i: usize = words.len();
    assert(all.take(i as int) =~= all);
    while i > 0
        invariant
            i <= words@.len(),
            all == words@.map_values(|p: Vec<char>| p@),
            key_chars@ == key@,
            word_value(all, key@) == word_value(all.take(i as int), key@),
        decreases i,
    {
        let ghost pre = all.take(i as int);
        assert(pre.drop_last() =~= all.take(i - 1));
        assert(pre.last() == words@[i - 1]@);
        match key_value_of(&words[i - 1]) {
            Some((k, v)) => {
                if same_chars(&k, &key_chars) {
                    return Some(v);
                }
            },
            None => {},
        }
        i = i - 1;
    }
    None
}

fn i32_of(v: Option<Vec<char>>) -> (r: i32)
    ensures
        r as int == i32_or_zero(
            match v {
                Some(s) => Some(s@),
                None => None,
            },
        ),
{
    match v {
        Some(s) => int_or_zero_in(&s, i32::MIN as i64, i32::MAX as i64) as i32,
        None => 0,
    }
}

fn i64_of(v: Option<Vec<char>>) -> (r: i64)
    ensures
        r as int == i64_or_zero(
            match v {
                Some(s) => Some(s@),
                None => None,
            },
        ),
{
    match v {
        Some(s) => int_or_zero_in(&s, i64::MIN, i64::MAX),
        None => 0,
    }
}

/// The comma-separated parts of a line.
pub open spec fn parts_of(line: Seq<char>) -> Seq<Seq<char>> {
    split_on(line, ',')
}

/// `slot` is the board that a header line `slot: 1, freq: 575, temp: 65.3,
/// step: 2` describes, with no chips yet.
pub open spec fn is_slot_header(slot: Slot, line: Seq<char>) -> bool {
    let parts = parts_of(line);
    &&& slot.id as int == i32_or_zero(keyed_value(parts, "slot"@))
    &&& slot.freq as int == i32_or_zero(keyed_value(parts, "freq"@))
    &&& slot.temp_centi as int == match keyed_value(parts, "temp"@) {
        Some(v) => centi_or_zero(v, i64::MIN as int, i64::MAX as int),
        None => 0,
    }
    &&& slot.step as int == i32_or_zero(keyed_value(parts, "step"@))
    &&& slot.nonce_valid == 0 && slot.nonce_rate == 0 && slot.errors == 0 && slot.crc == 0
    &&& slot.chips@.len() == 0
}

/// Reads a board header line.
pub fn parse_slot_header(line: &Vec<char>) -> (r: Slot)
    ensures
        is_slot_header(r, line@),
{
    let parts = split_chars(line, ',');
    proof {
        assert(parts@.map_values(|p: Vec<char>| p@) =~= parts_of(line@));
    }
    let id = i32_of(keyed_value_in(&parts, "slot"));
    let freq = i32_of(keyed_value_in(&parts, "freq"));
    let temp_centi = match keyed_value_in(&parts, "temp") {
        Some(v) => centi_or_zero_in(&v, i64::MIN, i64::MAX),
        None => 0,
    };
    let step = i32_of(keyed_value_in(&parts, "step"));
    Slot {
        id,
        freq,
        temp_centi,
        step,
        nonce_valid: 0,
        nonce_rate: 0,
        errors: 0,
        crc: 0,
        chips: Vec::new(),
    }
}

/// Index of the first white-space character of `s` at or after `from`.
pub open spec fn find_ws_from(s: Seq<char>, from: int) -> Option<int>
    decreases s.len() - from,
{
    if from < 0 || from >= s.len() {
        None
    } else if whitespace(s[from]) {
        Some(from)
    } else {
        find_ws_from(s, from + 1)
    }
}

/// `s` without the `c` characters at its end.
pub open spec fn strip_trailing(s: Seq<char>, c: char) -> Seq<char>
    decreases s.len(),
{
    if s.len() > 0 && s.last() == c {
        strip_trailing(s.drop_last(), c)
    } else {
        s
    }
}

/// The text after the first `pct:` of a line, up to the next `pct:`.
pub open spec fn pct_text(line: Seq<char>) -> Option<Seq<char>> {
    match find_run(line, "pct:"@) {
        Some(i) => {
            let rest = line.skip(i + "pct:"@.len());
            Some(
                match find_run(rest, "pct:"@) {
                    Some(j) => rest.take(j),
                    None => rest,
                },
            )
        },
        None => None,
    }
}

/// A percentage such as ` 98.8%`, in hundredths of a percent.
pub open spec fn pct_value(piece: Seq<char>) -> int {
    centi_or_zero(strip_trailing(trim(piece), '%'), i32::MIN as int, i32::MAX as int)
}

/// The `k`-th slash-separated percentage after `pct:`, or 0.
pub open spec fn pct_at(line: Seq<char>, k: int) -> int {
    match pct_text(line) {
        Some(t) => if k < split_on(t, '/').len() {
            pct_value(split_on(t, '/')[k])
        } else {
            0
        },
        None => 0,
    }
}

/// What a chip line such as `C12 freq:575 vol:1330 temp:75 nonce:981
/// err:0 crc:0 x:0 repeat:0 pct: 98.8%/ 94.1%` says, when it can be read:
/// its id is what follows the first character up to the first white space,
/// each `key:value` word sets a field (0 when it does not read as a number),
/// and the two percentages follow `pct:`.
pub open spec fn chip_from_line(line: Seq<char>) -> Chip {
    let words = split_ws(line);
    let id_end = find_ws_from(line, 0)->0;
    Chip {
        id: int_within(line.subrange(1, id_end), i32::MIN as int, i32::MAX as int)->0 as i32,
        freq: i32_or_zero(word_value(words, "freq"@)) as i32,
        vol: i32_or_zero(word_value(words, "vol"@)) as i32,
        temp: i32_or_zero(word_value(words, "temp"@)) as i32,
        nonce: i64_or_zero(word_value(words, "nonce"@)) as i64,
        errors: i32_or_zero(word_value(words, "err"@)) as i32,
        crc: i32_or_zero(word_value(words, "crc"@)) as i32,
        x: i32_or_zero(word_value(words, "x"@)) as i32,
        repeat: i32_or_zero(word_value(words, "repeat"@)) as i32,
        pct1: pct_at(line, 0) as i32,
        pct2: pct_at(line, 1) as i32,
    }
}

/// Whether a chip line can be read: it has white space after its first
/// character, and its id reads as a number.
pub open spec fn chip_line_reads(line: Seq<char>) -> bool {
    match find_ws_from(line, 0) {
        Some(e) => e >= 1 && int_within(
            line.subrange(1, e),
            i32::MIN as int,
            i32::MAX as int,
        ) is Some,
        None => false,
    }
}

/// Index of the first white-space character of `s`.
fn find_ws_in(s: &Vec<char>) -> (r: Option<usize>)
    ensures
        match r {
            Some(i) => find_ws_from(s@, 0) == Some(i as int) && i < s@.len(),
            None => find_ws_from(s@, 0) is None,
        },
{
    let mut i: usize = 0;
    while i < s.len()
        invariant
            find_ws_from(s@, 0) == find_ws_from(s@, i as int),
        decreases s@.len() - i,
    {
        if is_whitespace(s[i]) {
            return Some(i);
        }
        i = i + 1;
    }
    None
}

/// `s` without the `c` characters at its end.
fn strip_trailing_in(s: &Vec<char>, c: char) -> (r: Vec<char>)
    ensures
        r@ == strip_trailing(s@, c),
{
    let mut end: usize = s.len();
    assert(s@.subrange(0, end as int) =~= s@);
    while end > 0 && s[end - 1] == c
        invariant
            end <= s@.len(),
            strip_trailing(s@, c) == strip_trailing(s@.subrange(0, end as int), c),
        decreases end,
    {
        assert(s@.subrange(0, end as int).drop_last() =~= s@.subrange(0, end - 1));
        end = end - 1;
    }
    slice_of(s, 0, end)
}

/// The text after the first `pct:` of a line, up to the next `pct:`.
fn pct_text_in(line: &Vec<char>) -> (r: Option<Vec<char>>)
    ensures
        match r {
            Some(t) => pct_text(line@) == Some(t@),
            None => pct_text(line@) is None,
        },
{
    let marker = chars_of("pct:");
    let n = line.len();
    match find_run_in(line, &marker, 0) {
        Some(i) => {
            proof {
                lemma_found_run_in_range(line@, marker@, 0);
            }
            let rest = slice_of(line, i + marker.len(), n);
            assert(rest@ =~= line@.skip(i + marker@.len()));
            match find_run_in(&rest, &marker, 0) {
                Some(j) => {
                    proof {
                        lemma_found_run_in_range(rest@, marker@, 0);
                    }
                    let t = slice_of(&rest, 0, j);
                    assert(t@ =~= rest@.take(j as int));
                    Some(t)
                },
                None => Some(rest),
            }
        },
        None => None,
    }
}

/// A run found in `hay` lies within it.
proof fn lemma_found_run_in_range(hay: Seq<char>, needle: Seq<char>, from: int)
    requires
        find_run_from(hay, needle, from) is Some,
    ensures
        from <= find_run_from(hay, needle, from)->0,
        find_run_from(hay, needle, from)->0 + needle.len() <= hay.len(),
        occurs_at_spec(hay, needle, find_run_from(hay, needle, from)->0),
    decreases hay.len() + 1 - from,
{
    if from >= 0 && from + needle.len() <= hay.len() && !occurs_at_spec(hay, needle, from) {
        lemma_found_run_in_range(hay, needle, from + 1);
    }
}

/// The `k`-th slash-separated percentage after `pct:`, or 0.
fn pct_at_in(line: &Vec<char>, k: usize) -> (r: i32)
    ensures
        r as int == pct_at(line@, k as int),
{
    match pct_text_in(line) {
        Some(t) => {
            let pieces = split_chars(&t, '/');
            if k < pieces.len() {
                let piece = strip_trailing_in(&trimmed(&pieces[k]), '%');
                centi_or_zero_in(&piece, i32::MIN as i64, i32::MAX as i64) as i32
            } else {
                0
            }
        },
        None => 0,
    }
}

/// Reads a chip line; `None` when it cannot be read.
pub fn parse_chip_line(line: &Vec<char>) -> (r: Option<Chip>)
    ensures
        r == if chip_line_reads(line@) {
            Some(chip_from_line(line@))
        } else {
            None
        },
{
    let id_end = match find_ws_in(line) {
        Some(e) => e,
        None => return None,
    };
    if id_end < 1 {
        return None;
    }
    let id = match read_int(&slice_of(line, 1, id_end), i32::MIN as i64, i32::MAX as i64) {
        Some(v) => v as i32,
        None => return None,
    };
    let words = split_ws_chars(line);
    proof {
        assert(words@.map_values(|p: Vec<char>| p@) =~= split_ws(line@));
    }
    Some(
        Chip {
            id,
            freq: i32_of(word_value_in(&words, "freq")),
            vol: i32_of(word_value_in(&words, "vol")),
            temp: i32_of(word_value_in(&words, "temp")),
            nonce: i64_of(word_value_in(&words, "nonce")),
            errors: i32_of(word_value_in(&words, "err")),
            crc: i32_of(word_value_in(&words, "crc")),
            x: i32_of(word_value_in(&words, "x")),
            repeat: i32_of(word_value_in(&words, "repeat")),
            pct1: pct_at_in(line, 0),
            pct2: pct_at_in(line, 1),
        },
    )
}

/// What follows `nonce valid:` on a nonce line.
pub open spec fn after_nonce_label(line: Seq<char>) -> Option<Seq<char>> {
    if has_prefix(line, "nonce valid:"@) {
        Some(line.skip("nonce valid:"@.len() as int))
    } else {
        None
    }
}

/// The valid-nonce count that a nonce line such as `nonce valid:
/// 981367(3182/s), err: 5, crc: 0` sets: what precedes the `(`, trimmed.
pub open spec fn nonce_valid_of(line: Seq<char>) -> Option<int> {
    match after_nonce_label(line) {
        Some(rest) => match find_char(rest, '(') {
            Some(p) => Some(int_or_zero(trim(rest.take(p)), i64::MIN as int, i64::MAX as int)),
            None => None,
        },
        None => None,
    }
}

/// The nonce rate that a nonce line sets: what stands between the `(` and
/// the first `/s)`, when that follows the `(`.
pub open spec fn nonce_rate_of(line: Seq<char>) -> Option<int> {
    match after_nonce_label(line) {
        Some(rest) => match find_char(rest, '(') {
            Some(p) => match find_run(rest, "/s)"@) {
                Some(q) => if p + 1 <= q {
                    Some(int_or_zero(rest.subrange(p + 1, q), i32::MIN as int, i32::MAX as int))
                } else {
                    None
                },
                None => None,
            },
            None => None,
        },
        None => None,
    }
}

/// Reads a nonce line into the board it belongs to: the valid-nonce count
/// and rate, and the `err` and `crc` counters among its comma-separated
/// parts. What the line does not set stays as it was.
pub fn parse_nonce_line(line: &Vec<char>, slot: &mut Slot)
    ensures
        final(slot).nonce_valid as int == match nonce_valid_of(line@) {
            Some(v) => v,
            None => old(slot).nonce_valid as int,
        },
        final(slot).nonce_rate as int == match nonce_rate_of(line@) {
            Some(v) => v,
            None => old(slot).nonce_rate as int,
        },
        final(slot).errors as int == match keyed_value(parts_of(line@), "err"@) {
            Some(v) => int_or_zero(v, i32::MIN as int, i32::MAX as int),
            None => old(slot).errors as int,
        },
        final(slot).crc as int == match keyed_value(parts_of(line@), "crc"@) {
            Some(v) => int_or_zero(v, i32::MIN as int, i32::MAX as int),
            None => old(slot).crc as int,
        },
        final(slot).id == old(slot).id,
        final(slot).freq == old(slot).freq,
        final(slot).temp_centi == old(slot).temp_centi,
        final(slot).step == old(slot).step,
        final(slot).chips == old(slot).chips,
{
    let label = chars_of("nonce valid:");
    let n = line.len();
    if occurs_at(line, &label, 0) {
        let rest = slice_of(line, label.len(), n);
        assert(rest@ =~= line@.skip(label@.len() as int));
        match find_char_in(&rest, '(', 0) {
            Some(p) => {
                proof {
                    lemma_found_char_in_range(rest@, '(', 0);
                }
                let count = trimmed(&slice_of(&rest, 0, p));
                assert(rest@.subrange(0, p as int) =~= rest@.take(p as int));
                slot.nonce_valid = int_or_zero_in(&count, i64::MIN, i64::MAX);
                let rate_end = chars_of("/s)");
                match find_run_in(&rest, &rate_end, 0) {
                    Some(q) => {
                        proof {
                            lemma_found_run_in_range(rest@, rate_end@, 0);
                        }
                        if p + 1 <= q {
                            let rate = slice_of(&rest, p + 1, q);
                            slot.nonce_rate = int_or_zero_in(
                                &rate,
                                i32::MIN as i64,
                                i32::MAX as i64,
                            ) as i32;
                        }
                    },
                    None => {},
                }
            },
            None => {},
        }
    }
    let parts = split_chars(line, ',');
    proof {
        assert(parts@.map_values(|p: Vec<char>| p@) =~= parts_of(line@));
    }
    match keyed_value_in(&parts, "err") {
        Some(v) => {
            slot.errors = int_or_zero_in(&v, i32::MIN as i64, i32::MAX as i64) as i32;
        },
        None => {},
    }
    match keyed_value_in(&parts, "crc") {
        Some(v) => {
            slot.crc = int_or_zero_in(&v, i32::MIN as i64, i32::MAX as i64) as i32;
        },
        None => {},
    }
}

/// A line that starts a board.
pub open spec fn is_header_line(l: Seq<char>) -> bool {
    has_prefix(l, "slot:"@)
}

/// A line that carries a board's nonce counts.
pub open spec fn is_nonce_line(l: Seq<char>) -> bool {
    has_prefix(l, "nonce valid:"@)
}

/// A line that may describe a chip.
pub open spec fn is_chip_candidate(l: Seq<char>) -> bool {
    l.len() > 0 && l[0] == 'C' && find_run(l, "freq:"@) is Some
}

/// The trimmed lines of a log grouped by board: each header line with the
/// lines after it up to the next header. Lines before the first header
/// belong to no board.
pub open spec fn board_groups(lines: Seq<Seq<char>>) -> Seq<(Seq<char>, Seq<Seq<char>>)>
    decreases lines.len(),
{
    if lines.len() == 0 {
        Seq::empty()
    } else {
        let pre = board_groups(lines.drop_last());
        let l = trim(lines.last());
        if is_header_line(l) {
            pre.push((l, Seq::empty()))
        } else if pre.len() == 0 {
            pre
        } else {
            pre.update(pre.len() - 1, (pre.last().0, pre.last().1.push(l)))
        }
    }
}

/// The chips that a board's lines describe, in order.
pub open spec fn body_chips(body: Seq<Seq<char>>) -> Seq<Chip>
    decreases body.len(),
{
    if body.len() == 0 {
        Seq::empty()
    } else {
        let pre = body_chips(body.drop_last());
        let l = body.last();
        if !is_nonce_line(l) && is_chip_candidate(l) && chip_line_reads(l) {
            pre.push(chip_from_line(l))
        } else {
            pre
        }
    }
}

/// The valid-nonce count set by the last nonce line that sets one, or 0.
pub open spec fn last_nonce_valid(body: Seq<Seq<char>>) -> int
    decreases body.len(),
{
    if body.len() == 0 {
        0
    } else if is_nonce_line(body.last()) && nonce_valid_of(body.last()) is Some {
        nonce_valid_of(body.last())->0
    } else {
        last_nonce_valid(body.drop_last())
    }
}

/// The nonce rate set by the last nonce line that sets one, or 0.
pub open spec fn last_nonce_rate(body: Seq<Seq<char>>) -> int
    decreases body.len(),
{
    if body.len() == 0 {
        0
    } else if is_nonce_line(body.last()) && nonce_rate_of(body.last()) is Some {
        nonce_rate_of(body.last())->0
    } else {
        last_nonce_rate(body.drop_last())
    }
}

/// The counter `key` as set by the last nonce line that names it, or 0.
pub open spec fn last_counter(body: Seq<Seq<char>>, key: Seq<char>) -> int
    decreases body.len(),
{
    if body.len() == 0 {
        0
    } else if is_nonce_line(body.last()) && keyed_value(parts_of(body.last()), key) is Some {
        int_or_zero(keyed_value(parts_of(body.last()), key)->0, i32::MIN as int, i32::MAX as int)
    } else {
        last_counter(body.drop_last(), key)
    }
}

/// `slot` is the board that a header line and the lines after it describe.
pub open spec fn slot_reads(slot: Slot, header: Seq<char>, body: Seq<Seq<char>>) -> bool {
    let parts = parts_of(header);
    &&& slot.id as int == i32_or_zero(keyed_value(parts, "slot"@))
    &&& slot.freq as int == i32_or_zero(keyed_value(parts, "freq"@))
    &&& slot.temp_centi as int == match keyed_value(parts, "temp"@) {
        Some(v) => centi_or_zero(v, i64::MIN as int, i64::MAX as int),
        None => 0,
    }
    &&& slot.step as int == i32_or_zero(keyed_value(parts, "step"@))
    &&& slot.nonce_valid as int == last_nonce_valid(body)
    &&& slot.nonce_rate as int == last_nonce_rate(body)
    &&& slot.errors as int == last_counter(body, "err"@)
    &&& slot.crc as int == last_counter(body, "crc"@)
    &&& slot.chips@ == body_chips(body)
}

/// Why a page could not be read.
#[derive(Debug, Clone, Copy, PartialEq, Eq, Structural)]
pub enum ParseError {
    /// The page has no `id="syslog">` element.
    MissingTextarea,
    /// The log element is not closed by `</textarea>`.
    UnclosedTextarea,
    /// The log names no board.
    NoSlots,
}

impl ParseError {
    /// A short English description.
    pub fn message(&self) -> (r: &'static str)
        ensures
            r == match *self {
                ParseError::MissingTextarea => "Missing textarea",
                ParseError::UnclosedTextarea => "Unclosed textarea",
                ParseError::NoSlots => "No slots found",
            },
    {
        match self {
            ParseError::MissingTextarea => "Missing textarea",
            ParseError::UnclosedTextarea => "Unclosed textarea",
            ParseError::NoSlots => "No slots found",
        }
    }
}

/// The boards that a chip log describes, one per group of lines.
pub open spec fn log_reads(data: MinerData, text: Seq<char>) -> bool {
    let groups = board_groups(split_on(text, '\n'));
    &&& data.slots@.len() == groups.len()
    &&& forall|k: int|
        0 <= k < groups.len() ==> #[trigger] slot_reads(
            data.slots@[k],
            groups[k].0,
            groups[k].1,
        )
}

/// Reads a chip log: every line is trimmed; a `slot:` line starts a board,
/// a `nonce valid:` line sets the current board's counters, and a line that
/// starts with `C` and holds `freq:` adds a chip to it when it can be read.
/// Fails when the log names no board.
pub fn parse_text(text: &str) -> (r: Result<MinerData, ParseError>)
    ensures
        log_result(r, text@),
{
    parse_log(&chars_of(text))
}

/// `r` is what reading the chip log `text` gives.
pub open spec fn log_result(r: Result<MinerData, ParseError>, text: Seq<char>) -> bool {
    match r {
        Ok(data) => board_groups(split_on(text, '\n')).len() > 0 && log_reads(data, text),
        Err(e) => board_groups(split_on(text, '\n')).len() == 0 && e == ParseError::NoSlots,
    }
}

fn parse_log(text: &Vec<char>) -> (r: Result<MinerData, ParseError>)
    ensures
        log_result(r, text@),
{
    let lines = split_chars(text, '\n');
    let ghost all = lines@.map_values(|l: Vec<char>| l@);
    proof {
        assert(all =~= split_on(text@, '\n'));
    }
    let slot_label = chars_of("slot:");
    let nonce_label = chars_of("nonce valid:");
    let freq_label = chars_of("freq:");
    let mut slots: Vec<Slot> = Vec::new();
    let mut current: Option<Slot> = None;
    let mut i: usize = 0;
    assert(all.take(0) =~= Seq::<Seq<char>>::empty());
    while i < lines.len()
        invariant
            i <= lines@.len(),
            all == lines@.map_values(|l: Vec<char>| l@),
            slot_label@ == "slot:"@,
            nonce_label@ == "nonce valid:"@,
            freq_label@ == "freq:"@,
            ({
                let g = board_groups(all.take(i as int));
                &&& current is Some <==> g.len() > 0
                &&& slots@.len() == if g.len() > 0 { g.len() - 1 } else { 0 }
                &&& forall|k: int|
                    0 <= k < slots@.len() ==> #[trigger] slot_reads(slots@[k], g[k].0, g[k].1)
                &&& current is Some ==> slot_reads(current->0, g.last().0, g.last().1)
            }),
        decreases lines@.len() - i,
    {
        let ghost g0 = board_groups(all.take(i as int));
        assert(all.take(i as int + 1).drop_last() =~= all.take(i as int));
        let l = trimmed(&lines[i]);
        let ghost g1 = board_groups(all.take(i as int + 1));
        if occurs_at(&l, &slot_label, 0) {
            let header = parse_slot_header(&l);
            assert(header.chips@ =~= body_chips(Seq::<Seq<char>>::empty()));
            match current {
                Some(c) => {
                    slots.push(c);
                },
                None => {},
            }
            current = Some(header);
        } else if occurs_at(&l, &nonce_label, 0) {
            current = match current {
                Some(mut c) => {
                    let ghost body = g0.last().1;
                    parse_nonce_line(&l, &mut c);
                    assert(body.push(l@).drop_last() =~= body);
                    Some(c)
                },
                None => None,
            };
        } else if l.len() > 0 && l[0] == 'C' && find_run_in(&l, &freq_label, 0).is_some() {
            current = match current {
                Some(mut c) => {
                    let ghost body = g0.last().1;
                    assert(body.push(l@).drop_last() =~= body);
                    match parse_chip_line(&l) {
                        Some(chip) => {
                            c.chips.push(chip);
                        },
                        None => {},
                    }
                    Some(c)
                },
                None => None,
            };
        } else {
            current = match current {
                Some(c) => {
                    let ghost body = g0.last().1;
                    assert(body.push(l@).drop_last() =~= body);
                    Some(c)
                },
                None => None,
            };
        }
        i = i + 1;
    }
    assert(all.take(i as int) =~= all);
    match current {
        Some(c) => {
            slots.push(c);
            Ok(MinerData { slots })
        },
        None => Err(ParseError::NoSlots),
    }
}

/// The chip log inside a status page: what follows `id="syslog">` up to the
/// next `</textarea>`.
pub open spec fn syslog_text(html: Seq<char>) -> Result<Seq<char>, ParseError> {
    match find_run(html, "id=\"syslog\">"@) {
        Some(i) => {
            let rest = html.skip(i + "id=\"syslog\">"@.len());
            match find_run(rest, "</textarea>"@) {
                Some(j) => Ok(rest.take(j)),
                None => Err(ParseError::UnclosedTextarea),
            }
        },
        None => Err(ParseError::MissingTextarea),
    }
}

/// What follows the first occurrence of `open` in `s` up to the next
/// occurrence of `close`.
pub open spec fn between(s: Seq<char>, open: Seq<char>, close: Seq<char>) -> Option<Seq<char>> {
    match find_run(s, open) {
        Some(i) => {
            let rest = s.skip(i + open.len());
            match find_run(rest, close) {
                Some(j) => Some(rest.take(j)),
                None => None,
            }
        },
        None => None,
    }
}

/// What follows the first occurrence of `open` in `s` up to the next
/// occurrence of `close`.
fn between_in(s: &Vec<char>, open: &Vec<char>, close: &Vec<char>) -> (r: Option<Vec<char>>)
    ensures
        match r {
            Some(t) => between(s@, open@, close@) == Some(t@),
            None => between(s@, open@, close@) is None,
        },
{
    let n = s.len();
    match find_run_in(s, open, 0) {
        Some(i) => {
            proof {
                lemma_found_run_in_range(s@, open@, 0);
            }
            let rest = slice_of(s, i + open.len(), n);
            assert(rest@ =~= s@.skip(i + open@.len()));
            match find_run_in(&rest, close, 0) {
                Some(j) => {
                    proof {
                        lemma_found_run_in_range(rest@, close@, 0);
                    }
                    let t = slice_of(&rest, 0, j);
                    assert(t@ =~= rest@.take(j as int));
                    Some(t)
                },
                None => None,
            }
        },
        None => None,
    }
}

/// Reads the chip log out of the miner's status page.
pub fn parse_html(html: &str) -> (r: Result<MinerData, ParseError>)
    ensures
        match syslog_text(html@) {
            Ok(text) => log_result(r, text),
            Err(e) => r == Err::<MinerData, ParseError>(e),
        },
{
    let page = chars_of(html);
    let open = chars_of("id=\"syslog\">");
    let close = chars_of("</textarea>");
    let n = page.len();
    match find_run_in(&page, &open, 0) {
        Some(i) => {
            proof {
                lemma_found_run_in_range(page@, open@, 0);
            }
            let rest = slice_of(&page, i + open.len(), n);
            assert(rest@ =~= page@.skip(i + open@.len()));
            match find_run_in(&rest, &close, 0) {
                Some(j) => {
                    proof {
                        lemma_found_run_in_range(rest@, close@, 0);
                    }
                    let text = slice_of(&rest, 0, j);
                    assert(text@ =~= rest@.take(j as int));
                    parse_log(&text)
                },
                None => Err(ParseError::UnclosedTextarea),
            }
        },
        None => Err(ParseError::MissingTextarea),
    }
}

/// The cell after a table cell that reads `label` exactly:
/// `>label</td><td>VALUE</td>`.
pub open spec fn table_value(html: Seq<char>, label: Seq<char>) -> Option<Seq<char>> {
    between(html, ">"@ + label + "</td><td>"@, "</td>"@)
}

/// `a` followed by `b`.
fn concat(a: &Vec<char>, b: &Vec<char>) -> (r: Vec<char>)
    ensures
        r@ == a@ + b@,
{
    let mut r: Vec<char> = Vec::with_capacity(a.len());
    let mut i: usize = 0;
    while i < a.len()
        invariant
            i <= a@.len(),
            r@ == a@.take(i as int),
        decreases a@.len() - i,
    {
        r.push(a[i]);
        i = i + 1;
        assert(r@ =~= a@.take(i as int));
    }
    let mut j: usize = 0;
    assert(a@.take(i as int) =~= a@);
    while j < b.len()
        invariant
            j <= b@.len(),
            r@ == a@ + b@.take(j as int),
        decreases b@.len() - j,
    {
        r.push(b[j]);
        j = j + 1;
        assert(r@ =~= a@ + b@.take(j as int));
    }
    assert(b@.take(j as int) =~= b@);
    r
}

/// The cell after the table cell that reads `label`, if the page has one.
pub fn extract_table_value(html: &str, label: &str) -> (r: Option<String>)
    ensures
        match r {
            Some(v) => table_value(html@, label@) == Some(v@),
            None => table_value(html@, label@) is None,
        },
{
    let page = chars_of(html);
    let open = concat(&concat(&chars_of(">"), &chars_of(label)), &chars_of("</td><td>"));
    let close = chars_of("</td>");
    match between_in(&page, &open, &close) {
        Some(v) => Some(string_from(&v)),
        None => None,
    }
}

/// A text, or nothing.
pub open spec fn text_or_empty(v: Option<Seq<char>>) -> Seq<char> {
    match v {
        Some(t) => t,
        None => Seq::empty(),
    }
}

/// Reads the model, hardware and firmware rows of the overview page; a row
/// that is missing reads as empty.
pub fn parse_overview_html(html: &str) -> (r: SystemInfo)
    ensures
        r.model@ == text_or_empty(table_value(html@, "Model"@)),
        r.hardware_info@ == text_or_empty(table_value(html@, "Hardware Info"@)),
        r.firmware_version@ == text_or_empty(table_value(html@, "Firmware Version"@)),
{
    SystemInfo {
        model: value_or_empty(extract_table_value(html, "Model")),
        hardware_info: value_or_empty(extract_table_value(html, "Hardware Info")),
        firmware_version: value_or_empty(extract_table_value(html, "Firmware Version")),
    }
}

fn value_or_empty(v: Option<String>) -> (r: String)
    ensures
        r@ == match v {
            Some(s) => s@,
            None => Seq::<char>::empty(),
        },
{
    match v {
        Some(s) => s,
        None => String::new(),
    }
}

} // verus!
