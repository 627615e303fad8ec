//! Character-level helpers on strings: iteration, trimming, splitting,
//! searching and reading numbers.
use vstd::prelude::*;

verus! {

/// Whether a character is white space: it has the Unicode `White_Space`
/// property, as `char::is_whitespace` documents.
pub open spec fn whitespace(c: char) -> bool {
    ('\u{9}' <= c <= '\u{d}') || c == ' ' || c == '\u{85}' || c == '\u{a0}' || c == '\u{1680}'
        || ('\u{2000}' <= c <= '\u{200a}') || c == '\u{2028}' || c == '\u{2029}' || c
        == '\u{202f}' || c == '\u{205f}' || c == '\u{3000}'
}

/// Whether a character is white space.
pub fn is_whitespace(c: char) -> (r: bool)
    ensures
        r == whitespace(c),
{
    ('\u{9}' <= c && c <= '\u{d}') || c == ' ' || c == '\u{85}' || c == '\u{a0}' || c
        == '\u{1680}' || ('\u{2000}' <= c && c <= '\u{200a}') || c == '\u{2028}' || c
        == '\u{2029}' || c == '\u{202f}' || c == '\u{205f}' || c == '\u{3000}'
}

/// Relies on `FromIterator<char> for String`: the string holds the given
/// characters in order.
#[verifier::external_body]
pub(crate) fn string_from(cs: &Vec<char>) -> (r: String)
    ensures
        r@ == cs@,
{
    cs.iter().collect()
}

/// The characters of `s`, in order.
pub fn chars_of(s: &str) -> (r: Vec<char>)
    ensures
        r@ == s@,
{
    let mut r: Vec<char> = Vec::new();
    broadcast use vstd::string::axiom_spec_iter;
    for c in it: s.chars()
        invariant
            it.seq() == s@,
            r@ == s@.take(it.index() as int),
    {
        r.push(c);
        assert(s@.take(it.index() as int + 1) =~= r@);
    }
    assert(r@ =~= s@.take(s@.len() as int));
    r
}

/// `s` without its leading white space.
pub open spec fn trim_start(s: Seq<char>) -> Seq<char>
    decreases s.len(),
{
    if s.len() > 0 && whitespace(s[0]) {
        trim_start(s.drop_first())
    } else {
        s
    }
}

/// `s` without its trailing white space.
pub open spec fn trim_end(s: Seq<char>) -> Seq<char>
    decreases s.len(),
{
    if s.len() > 0 && whitespace(s.last()) {
        trim_end(s.drop_last())
    } else {
        s
    }
}

/// `s` without leading and trailing white space.
pub open spec fn trim(s: Seq<char>) -> Seq<char> {
    trim_end(trim_start(s))
}

/// The pieces of `s` between occurrences of `sep`; there is always one more
/// piece than there are separators.
pub open spec fn split_on(s: Seq<char>, sep: char) -> Seq<Seq<char>>
    decreases s.len(),
{
    if s.len() == 0 {
        seq![Seq::<char>::empty()]
    } else {
        let pre = split_on(s.drop_last(), sep);
        if s.last() == sep {
            pre.push(Seq::<char>::empty())
        } else {
            pre.update(pre.len() - 1, pre.last().push(s.last()))
        }
    }
}

/// Index of the first occurrence of `c` in `s` at or after `from`.
pub open spec fn find_char_from(s: Seq<char>, c: char, from: int) -> Option<int>
    decreases s.len() - from,
{
    if from < 0 || from >= s.len() {
        None
    } else if s[from] == c {
        Some(from)
    } else {
        find_char_from(s, c, from + 1)
    }
}

/// Index of the first occurrence of `c` in `s`.
pub open spec fn find_char(s: Seq<char>, c: char) -> Option<int> {
    find_char_from(s, c, 0)
}

/// `needle` occurs in `hay` starting at `at`.
pub open spec fn occurs_at_spec(hay: Seq<char>, needle: Seq<char>, at: int) -> bool {
    0 <= at && at + needle.len() <= hay.len() && hay.subrange(at, at + needle.len()) == needle
}

/// Index of the first occurrence of `needle` in `hay` at or after `from`.
pub open spec fn find_run_from(hay: Seq<char>, needle: Seq<char>, from: int) -> Option<int>
    decreases hay.len() + 1 - from,
{
    if from < 0 || from + needle.len() > hay.len() {
        None
    } else if occurs_at_spec(hay, needle, from) {
        Some(from)
    } else {
        find_run_from(hay, needle, from + 1)
    }
}

/// Index of the first occurrence of `needle` in `hay`.
pub open spec fn find_run(hay: Seq<char>, needle: Seq<char>) -> Option<int> {
    find_run_from(hay, needle, 0)
}

/// Value of a run of ASCII decimal digits.
pub open spec fn digits_value(s: Seq<char>) -> int
    decreases s.len(),
{
    if s.len() == 0 {
        0
    } else {
        10 * digits_value(s.drop_last()) + (s.last() as int - '0' as int)
    }
}

pub open spec fn is_digit(c: char) -> bool {
    '0' <= c <= '9'
}

pub open spec fn all_digits(s: Seq<char>) -> bool {
    forall|i: int| 0 <= i < s.len() ==> is_digit(#[trigger] s[i])
}

/// The integer that `s` writes in decimal: an optional `+` or `-`, then one
/// or more ASCII digits, and nothing else.
pub open spec fn decimal_int(s: Seq<char>) -> Option<int> {
    if s.len() > 0 && (s[0] == '+' || s[0] == '-') {
        let ds = s.drop_first();
        if ds.len() > 0 && all_digits(ds) {
            Some(if s[0] == '-' { -digits_value(ds) } else { digits_value(ds) })
        } else {
            None
        }
    } else if s.len() > 0 && all_digits(s) {
        Some(digits_value(s))
    } else {
        None
    }
}

/// Whether `x` lies within `[lo, hi]`.
pub open spec fn in_range(x: int, lo: int, hi: int) -> bool {
    lo <= x <= hi
}

/// The integer that `s` writes, if it lies within `[lo, hi]`; else 0.
pub open spec fn int_or_zero(s: Seq<char>, lo: int, hi: int) -> int {
    match decimal_int(s) {
        Some(v) => if in_range(v, lo, hi) { v } else { 0 },
        None => 0,
    }
}

/// Whether `needle` occurs in `hay` starting at index `at`.
pub fn occurs_at(hay: &Vec<char>, needle: &Vec<char>, at: usize) -> (r: bool)
    ensures
        r == occurs_at_spec(hay@, needle@, at as int),
{
    if needle.len() > hay.len() || at > hay.len() - needle.len() {
        return false;
    }
    let hay_len = hay.len();
    let mut k: usize = 0;
    while k < needle.len()
        invariant
            k <= needle@.len(),
            hay_len == hay@.len(),
            at + needle@.len() <= hay@.len(),
            forall|j: int| 0 <= j < k ==> hay@[at + j] == needle@[j],
        decreases needle@.len() - k,
    {
        if hay[at + k] != needle[k] {
            assert(hay@.subrange(at as int, at + needle@.len())[k as int] != needle@[k as int]);
            return false;
        }
        k = k + 1;
    }
    assert(hay@.subrange(at as int, at + needle@.len()) =~= needle@);
    true
}

/// Index of the first occurrence of `needle` in `hay` at or after `from`.
pub fn find_run_in(hay: &Vec<char>, needle: &Vec<char>, from: usize) -> (r: Option<usize>)
    ensures
        match r {
            Some(i) => find_run_from(hay@, needle@, from as int) == Some(i as int),
            None => find_run_from(hay@, needle@, from as int) is None,
        },
{
    if needle.len() > hay.len() || from > hay.len() - needle.len() {
        return None;
    }
    let last = hay.len() - needle.len();
    let mut i: usize = from;
    while i <= last
        invariant
            last == hay@.len() - needle@.len(),
            from <= i <= last,
            find_run_from(hay@, needle@, from as int) == find_run_from(hay@, needle@, i as int),
        decreases last - i,
    {
        if occurs_at(hay, needle, i) {
            return Some(i);
        }
        if i == last {
            assert(find_run_from(hay@, needle@, i + 1) is None);
            return None;
        }
        i = i + 1;
    }
    None
}

/// Index of the first occurrence of `c` in `s` at or after `from`.
pub fn find_char_in(s: &Vec<char>, c: char, from: usize) -> (r: Option<usize>)
    ensures
        match r {
            Some(i) => find_char_from(s@, c, from as int) == Some(i as int),
            None => find_char_from(s@, c, from as int) is None,
        },
{
    let mut i: usize = from;
    while i < s.len()
        invariant
            from <= i,
            find_char_from(s@, c, from as int) == find_char_from(s@, c, i as int),
        decreases s@.len() - i,
    {
        if s[i] == c {
            return Some(i);
        }
        i = i + 1;
    }
    None
}

/// The characters of `s` from `start` up to `end`.
pub fn slice_of(s: &Vec<char>, start: usize, end: usize) -> (r: Vec<char>)
    requires
        start <= end <= s@.len(),
    ensures
        r@ == s@.subrange(start as int, end as int),
{
    let mut r: Vec<char> = Vec::with_capacity(end - start);
    let mut i: usize = start;
    while i < end
        invariant
            start <= i <= end <= s@.len(),
            r@ == s@.subrange(start as int, i as int),
        decreases end - i,
    {
        r.push(s[i]);
        i = i + 1;
        assert(r@ =~= s@.subrange(start as int, i as int));
    }
    r
}

/// `s` without leading and trailing white space.
pub fn trimmed(s: &Vec<char>) -> (r: Vec<char>)
    ensures
        r@ == trim(s@),
{
    let mut start: usize = 0;
    assert(s@.skip(0) =~= s@);
    while start < s.len() && is_whitespace(s[start])
        invariant
            start <= s@.len(),
            trim_start(s@) == trim_start(s@.skip(start as int)),
        decreases s@.len() - start,
    {
        assert(s@.skip(start as int).drop_first() =~= s@.skip(start as int + 1));
        start = start + 1;
    }
    proof {
        let t = s@.skip(start as int);
        if t.len() > 0 {
            assert(t[0] == s@[start as int]);
        }
        assert(trim_start(t) == t);
        assert(t =~= s@.subrange(start as int, s@.len() as int));
    }
    let mut end: usize = s.len();
    while end > start && is_whitespace(s[end - 1])
        invariant
            start <= end <= s@.len(),
            trim_start(s@) == s@.subrange(start as int, s@.len() as int),
            trim(s@) == trim_end(s@.subrange(start as int, end as int)),
        decreases end,
    {
        assert(s@.subrange(start as int, end as int).drop_last() =~= s@.subrange(
            start as int,
            end - 1,
        ));
        end = end - 1;
    }
    slice_of(s, start, end)
}

/// The pieces of `s` between occurrences of `sep`.
pub fn split_chars(s: &Vec<char>, sep: char) -> (r: Vec<Vec<char>>)
    ensures
        r@.len() == split_on(s@, sep).len(),
        forall|k: int| 0 <= k < r@.len() ==> (#[trigger] r@[k])@ == split_on(s@, sep)[k],
{
    let mut pieces: Vec<Vec<char>> = Vec::new();
    let mut cur: Vec<char> = Vec::new();
    let mut i: usize = 0;
    assert(s@.take(0) =~= Seq::<char>::empty());
    while i < s.len()
        invariant
            i <= s@.len(),
            pieces@.len() + 1 == split_on(s@.take(i as int), sep).len(),
            forall|k: int|
                0 <= k < pieces@.len() ==> (#[trigger] pieces@[k])@ == split_on(
                    s@.take(i as int),
                    sep,
                )[k],
            cur@ == split_on(s@.take(i as int), sep).last(),
        decreases s@.len() - i,
    {
        assert(s@.take(i as int + 1).drop_last() =~= s@.take(i as int));
        let c = s[i];
        if c == sep {
            pieces.push(cur);
            cur = Vec::new();
        } else {
            cur.push(c);
        }
        i = i + 1;
    }
    assert(s@.take(i as int) =~= s@);
    pieces.push(cur);
    pieces
}

/// Largest magnitude that number reading keeps exactly; anything larger is
/// out of range of every type read.
pub const DIGITS_CAP: u128 = 0x1_0000_0000_0000_0000;

/// A value, or `DIGITS_CAP + 1` when it is larger than `DIGITS_CAP`.
pub open spec fn capped(x: int) -> int {
    if x <= DIGITS_CAP {
        x
    } else {
        DIGITS_CAP + 1
    }
}

proof fn lemma_digits_value_grows(s: Seq<char>)
    requires
        s.len() > 0,
        all_digits(s),
    ensures
        digits_value(s) >= digits_value(s.drop_last()) >= 0,
    decreases s.len(),
{
    if s.len() > 1 {
        lemma_digits_value_grows(s.drop_last());
    }
    assert(is_digit(s[s.len() - 1]));
}

/// Whether `s[start..end]` is all ASCII digits, and their value, capped.
fn read_digits(s: &Vec<char>, start: usize, end: usize) -> (r: (bool, u128))
    requires
        start <= end <= s@.len(),
    ensures
        r.0 == all_digits(s@.subrange(start as int, end as int)),
        r.0 ==> r.1 == capped(digits_value(s@.subrange(start as int, end as int))),
{
    let mut v: u128 = 0;
    let mut i: usize = start;
    assert(s@.subrange(start as int, start as int) =~= Seq::<char>::empty());
    while i < end
        invariant
            start <= i <= end <= s@.len(),
            all_digits(s@.subrange(start as int, i as int)),
            v == capped(digits_value(s@.subrange(start as int, i as int))),
        decreases end - i,
    {
        let c = s[i];
        let ghost pre = s@.subrange(start as int, i as int);
        let ghost next = s@.subrange(start as int, i + 1);
        assert(next.drop_last() =~= pre);
        if !('0' <= c && c <= '9') {
            assert(!is_digit(s@.subrange(start as int, end as int)[i - start]));
            return (false, 0);
        }
        assert(all_digits(next)) by {
            assert forall|j: int| 0 <= j < next.len() implies is_digit(#[trigger] next[j]) by {
                if j < pre.len() {
                    assert(next[j] == pre[j]);
                }
            }
        }
        proof {
            lemma_digits_value_grows(next);
        }
        let d = (c as u32 - '0' as u32) as u128;
        if v > DIGITS_CAP {
            v = DIGITS_CAP + 1;
        } else {
            let w = 10 * v + d;
            if w > DIGITS_CAP {
                v = DIGITS_CAP + 1;
            } else {
                v = w;
            }
        }
        i = i + 1;
    }
    (true, v)
}

/// The integer that `s` writes, if it lies within `[lo, hi]`.
pub open spec fn int_within(s: Seq<char>, lo: int, hi: int) -> Option<int> {
    match decimal_int(s) {
        Some(v) => if in_range(v, lo, hi) { Some(v) } else { None },
        None => None,
    }
}

/// The integer that `s` writes in decimal, if it lies within `[lo, hi]`.
pub fn read_int(s: &Vec<char>, lo: i64, hi: i64) -> (r: Option<i64>)
    ensures
        match r {
            Some(v) => int_within(s@, lo as int, hi as int) == Some(v as int),
            None => int_within(s@, lo as int, hi as int) is None,
        },
{
    let n = s.len();
    if n == 0 {
        return None;
    }
    let signed = s[0] == '+' || s[0] == '-';
    let start: usize = if signed { 1 } else { 0 };
    if start == n {
        return None;
    }
    let (ok, v) = read_digits(s, start, n);
    proof {
        assert(s@.subrange(start as int, n as int) =~= if signed { s@.drop_first() } else { s@ });
    }
    if !ok {
        return None;
    }
    let value: i128 = if s[0] == '-' { -(v as i128) } else { v as i128 };
    if (lo as i128) <= value && value <= (hi as i128) {
        Some(value as i64)
    } else {
        None
    }
}

/// The integer that `s` writes in decimal, if it lies within `[lo, hi]`;
/// else 0.
pub fn int_or_zero_in(s: &Vec<char>, lo: i64, hi: i64) -> (r: i64)
    ensures
        r == int_or_zero(s@, lo as int, hi as int),
{
    match read_int(s, lo, hi) {
        Some(v) => v,
        None => 0,
    }
}

/// Value of the digit at index `i` of `s`, or 0 past its end.
pub open spec fn digit_at(s: Seq<char>, i: int) -> int {
    if 0 <= i < s.len() {
        s[i] as int - '0' as int
    } else {
        0
    }
}

/// Hundredths of the decimal number that `s` writes: an optional `+` or
/// `-`, then ASCII digits with at most one `.` among them and at least one
/// digit in all. Digits past the second decimal place are dropped, so the
/// value is rounded toward zero.
pub open spec fn decimal_centi(s: Seq<char>) -> Option<int> {
    let signed = s.len() > 0 && (s[0] == '+' || s[0] == '-');
    let start: int = if signed { 1 } else { 0 };
    let whole = match find_char_from(s, '.', start) {
        Some(p) => s.subrange(start, p),
        None => s.subrange(start, s.len() as int),
    };
    let frac = match find_char_from(s, '.', start) {
        Some(p) => s.subrange(p + 1, s.len() as int),
        None => Seq::<char>::empty(),
    };
    if all_digits(whole) && all_digits(frac) && whole.len() + frac.len() > 0 {
        let m = 100 * digits_value(whole) + 10 * digit_at(frac, 0) + digit_at(frac, 1);
        Some(if s[0] == '-' { -m } else { m })
    } else {
        None
    }
}

/// Hundredths of the decimal number that `s` writes, if within `[lo, hi]`;
/// else 0.
pub open spec fn centi_or_zero(s: Seq<char>, lo: int, hi: int) -> int {
    match decimal_centi(s) {
        Some(v) => if in_range(v, lo, hi) { v } else { 0 },
        None => 0,
    }
}

/// Hundredths of the decimal number that `s` writes, if within `[lo, hi]`;
/// else 0.
pub fn centi_or_zero_in(s: &Vec<char>, lo: i64, hi: i64) -> (r: i64)
    ensures
        r == centi_or_zero(s@, lo as int, hi as int),
{
    let n = s.len();
    let signed = n > 0 && (s[0] == '+' || s[0] == '-');
    let start: usize = if signed { 1 } else { 0 };
    let dot = find_char_in(s, '.', start);
    proof {
        if dot is Some {
            lemma_found_char_in_range(s@, '.', start as int);
        } else {
            assert(s@.subrange(n as int, n as int) =~= Seq::<char>::empty());
        }
    }
    let (whole_end, frac_start) = match dot {
        Some(p) => (p, p + 1),
        None => (n, n),
    };
    if start > whole_end {
        return 0;
    }
    let (whole_ok, whole) = read_digits(s, start, whole_end);
    let (frac_ok, _frac) = read_digits(s, frac_start, n);
    if !whole_ok || !frac_ok || (whole_end - start) + (n - frac_start) == 0 {
        return 0;
    }
    let ghost frac_seq = s@.subrange(frac_start as int, n as int);
    let d0: u128 = if frac_start < n {
        (s[frac_start] as u32 - '0' as u32) as u128
    } else {
        0
    };
    let d1: u128 = if n - frac_start >= 2 {
        (s[frac_start + 1] as u32 - '0' as u32) as u128
    } else {
        0
    };
    proof {
        if frac_start < n {
            assert(is_digit(frac_seq[0]));
        }
        if n - frac_start >= 2 {
            assert(is_digit(frac_seq[1]));
        }
    }
    let m: u128 = 100 * whole + 10 * d0 + d1;
    let value: i128 = if s[0] == '-' { -(m as i128) } else { m as i128 };
    if (lo as i128) <= value && value <= (hi as i128) {
        value as i64
    } else {
        0
    }
}

/// A character found in `s` lies within it and is the one searched for.
pub proof fn lemma_found_char_in_range(s: Seq<char>, c: char, from: int)
    requires
        find_char_from(s, c, from) is Some,
    ensures
        from <= find_char_from(s, c, from)->0 < s.len(),
        s[find_char_from(s, c, from)->0] == c,
    decreases s.len() - from,
{
    if from >= 0 && from < s.len() && s[from] != c {
        lemma_found_char_in_range(s, c, from + 1);
    }
}

/// The unsigned integer that `s` writes in decimal: an optional `+`, then
/// one or more ASCII digits, and nothing else.
pub open spec fn decimal_nat(s: Seq<char>) -> Option<int> {
    if s.len() > 0 && s[0] == '+' {
        let ds = s.drop_first();
        if ds.len() > 0 && all_digits(ds) {
            Some(digits_value(ds))
        } else {
            None
        }
    } else if s.len() > 0 && all_digits(s) {
        Some(digits_value(s))
    } else {
        None
    }
}

/// The unsigned integer that `s` writes, if it fits in a `usize`.
pub open spec fn usize_within(s: Seq<char>) -> Option<int> {
    match decimal_nat(s) {
        Some(v) => if v <= usize::MAX { Some(v) } else { None },
        None => None,
    }
}

/// The unsigned integer that `s` writes in decimal, if it fits in a `usize`.
pub fn read_usize(s: &Vec<char>) -> (r: Option<usize>)
    ensures
        match r {
            Some(v) => usize_within(s@) == Some(v as int),
            None => usize_within(s@) is None,
        },
{
    let n = s.len();
    if n == 0 {
        return None;
    }
    let start: usize = if s[0] == '+' { 1 } else { 0 };
    if start == n {
        return None;
    }
    let (ok, v) = read_digits(s, start, n);
    proof {
        assert(s@.subrange(start as int, n as int) =~= if s@[0] == '+' { s@.drop_first() } else { s@ });
    }
    if !ok {
        return None;
    }
    if v <= usize::MAX as u128 {
        Some(v as usize)
    } else {
        None
    }
}

/// The pieces of `s` between white-space characters (empty pieces
/// included).
pub open spec fn split_ws(s: Seq<char>) -> Seq<Seq<char>>
    decreases s.len(),
{
    if s.len() == 0 {
        seq![Seq::<char>::empty()]
    } else {
        let pre = split_ws(s.drop_last());
        if whitespace(s.last()) {
            pre.push(Seq::<char>::empty())
        } else {
            pre.update(pre.len() - 1, pre.last().push(s.last()))
        }
    }
}

/// The pieces of `s` between white-space characters.
pub fn split_ws_chars(s: &Vec<char>) -> (r: Vec<Vec<char>>)
    ensures
        r@.len() == split_ws(s@).len(),
        forall|k: int| 0 <= k < r@.len() ==> (#[trigger] r@[k])@ == split_ws(s@)[k],
{
    let mut pieces: Vec<Vec<char>> = Vec::new();
    let mut cur: Vec<char> = Vec::new();
    let mut i: usize = 0;
    assert(s@.take(0) =~= Seq::<char>::empty());
    while i < s.len()
        invariant
            i <= s@.len(),
            pieces@.len() + 1 == split_ws(s@.take(i as int)).len(),
            forall|k: int|
                0 <= k < pieces@.len() ==> (#[trigger] pieces@[k])@ == split_ws(
                    s@.take(i as int),
                )[k],
            cur@ == split_ws(s@.take(i as int)).last(),
        decreases s@.len() - i,
    {
        assert(s@.take(i as int + 1).drop_last() =~= s@.take(i as int));
        let c = s[i];
        if is_whitespace(c) {
            pieces.push(cur);
            cur = Vec::new();
        } else {
            cur.push(c);
        }
        i = i + 1;
    }
    assert(s@.take(i as int) =~= s@);
    pieces.push(cur);
    pieces
}

} // verus!
