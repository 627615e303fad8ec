//! Board geometry of known miner models, and lookup by model name.
use crate::config_table::{configs, known_configs};
use crate::models::Slot;
use crate::topology::{infer_chips_per_domain, inferred_cpd};
use crate::text::{chars_of, read_usize, split_chars, split_on, split_ws, split_ws_chars, usize_within};
use vstd::prelude::*;

verus! {

/// Geometry of one miner model.
#[derive(Debug, Clone, Copy)]
pub struct MinerConfig {
    pub model: &'static str,
    /// Chips on all boards together.
    pub chip_num: u16,
    pub chips_per_domain: u8,
    /// Number of hash boards.
    pub board_num: u8,
}

impl MinerConfig {
    /// Domains on one board's worth of chips: `chip_num / chips_per_domain`.
    pub fn domains_per_board(&self) -> (r: u16)
        requires
            self.chips_per_domain > 0,
        ensures
            r == self.chip_num / (self.chips_per_domain as u16),
    {
        self.chip_num / self.chips_per_domain as u16
    }

    /// Chips on one board: `chip_num / board_num`.
    pub fn chips_per_board(&self) -> (r: u16)
        requires
            self.board_num > 0,
        ensures
            r == self.chip_num / (self.board_num as u16),
    {
        self.chip_num / self.board_num as u16
    }
}

/// Upper-case form of a string, as Unicode defines it.
pub uninterp spec fn uppercase_of(s: Seq<char>) -> Seq<char>;

/// Whether a character is alphabetic or numeric, as Unicode defines it.
pub uninterp spec fn alphanumeric(c: char) -> bool;

/// Relies on `str::to_uppercase`: the result depends on the characters alone.
#[verifier::external_body]
fn to_uppercase(s: &str) -> (r: String)
    ensures
        r@ == uppercase_of(s@),
{
    s.to_uppercase()
}

/// Relies on `char::is_alphanumeric`: the result depends on the character
/// alone.
#[verifier::external_body]
fn is_alphanumeric(c: char) -> (r: bool)
    ensures
        r == alphanumeric(c),
{
    c.is_alphanumeric()
}

/// A model name keeps its alphanumeric characters and `+`.
pub open spec fn kept_in_model(c: char) -> bool {
    alphanumeric(c) || c == '+'
}

/// The characters of `s` that a model name keeps, in order.
pub open spec fn model_chars(s: Seq<char>) -> Seq<char>
    decreases s.len(),
{
    if s.len() == 0 {
        s
    } else if kept_in_model(s.last()) {
        model_chars(s.drop_last()).push(s.last())
    } else {
        model_chars(s.drop_last())
    }
}

/// `p` is a prefix of `s`.
pub open spec fn has_prefix(s: Seq<char>, p: Seq<char>) -> bool {
    p.len() <= s.len() && s.subrange(0, p.len() as int) == p
}

/// `needle` occurs in `hay` as a contiguous run.
pub open spec fn contains_run(hay: Seq<char>, needle: Seq<char>) -> bool {
    exists|i: int|
        0 <= i && i + needle.len() <= hay.len() && #[trigger] hay.subrange(i, i + needle.len())
            == needle
}

/// A model name in the form the table is searched with: upper case, only
/// alphanumerics and `+`, and without a leading `WHATSMINER`.
pub open spec fn normalized(model: Seq<char>) -> Seq<char> {
    let kept = model_chars(uppercase_of(model));
    if has_prefix(kept, "WHATSMINER"@) {
        kept.skip("WHATSMINER"@.len() as int)
    } else {
        kept
    }
}

/// The first entry from index `from` on whose model occurs in `name`.
pub open spec fn first_contained(table: Seq<MinerConfig>, name: Seq<char>, from: int) -> Option<
    MinerConfig,
>
    decreases table.len() - from,
{
    if from < 0 || from >= table.len() {
        None
    } else if contains_run(name, table[from].model@) {
        Some(table[from])
    } else {
        first_contained(table, name, from + 1)
    }
}

/// The first entry from index `from` on whose model starts with `prefix`.
pub open spec fn first_with_prefix(table: Seq<MinerConfig>, prefix: Seq<char>, from: int) -> Option<
    MinerConfig,
>
    decreases table.len() - from,
{
    if from < 0 || from >= table.len() {
        None
    } else if has_prefix(table[from].model@, prefix) {
        Some(table[from])
    } else {
        first_with_prefix(table, prefix, from + 1)
    }
}

/// The first entry whose model starts with the first `len` characters of
/// `name`, trying `len`, then shorter prefixes down to 4 characters.
pub open spec fn longest_prefix_match(table: Seq<MinerConfig>, name: Seq<char>, len: int) -> Option<
    MinerConfig,
>
    decreases len,
{
    if len < 4 || len > name.len() {
        None
    } else {
        match first_with_prefix(table, name.take(len), 0) {
            Some(c) => Some(c),
            None => longest_prefix_match(table, name, len - 1),
        }
    }
}

/// Index of the first `V` or `+` in `name` at or after `from`.
pub open spec fn series_end(name: Seq<char>, from: int) -> Option<int>
    decreases name.len() - from,
{
    if from < 0 || from >= name.len() {
        None
    } else if name[from] == 'V' || name[from] == '+' {
        Some(from)
    } else {
        series_end(name, from + 1)
    }
}

/// The entry of `table` that a normalized model name resolves to: the first
/// whose model occurs in the name; else the first that starts with the
/// longest prefix of the name of at least 4 characters; else the first that
/// starts with the name's series (what precedes its first `V` or `+`).
pub open spec fn resolve(table: Seq<MinerConfig>, name: Seq<char>) -> Option<MinerConfig> {
    match first_contained(table, name, 0) {
        Some(c) => Some(c),
        None => match longest_prefix_match(table, name, name.len() as int) {
            Some(c) => Some(c),
            None => match series_end(name, 0) {
                Some(k) => first_with_prefix(table, name.take(k), 0),
                None => None,
            },
        },
    }
}

/// Whether `s` starts with the first `len` characters of `p`.
fn starts_with_first(s: &Vec<char>, p: &Vec<char>, len: usize) -> (r: bool)
    requires
        len <= p@.len(),
    ensures
        r == has_prefix(s@, p@.take(len as int)),
{
    if len > s.len() {
        return false;
    }
    let mut k: usize = 0;
    while k < len
        invariant
            k <= len <= s@.len(),
            len <= p@.len(),
            forall|j: int| 0 <= j < k ==> s@[j] == p@[j],
        decreases len - k,
    {
        if s[k] != p[k] {
            assert(s@.subrange(0, len as int)[k as int] != p@.take(len as int)[k as int]);
            return false;
        }
        k = k + 1;
    }
    assert(s@.subrange(0, len as int) =~= p@.take(len as int));
    true
}

/// Whether `needle` occurs in `hay` starting at index `at`.
fn occurs_at(hay: &Vec<char>, needle: &Vec<char>, at: usize) -> (r: bool)
    requires
        at + needle@.len() <= hay@.len(),
    ensures
        r == (hay@.subrange(at as int, at + needle@.len()) == needle@),
{
    let hay_len = hay.len();
    let mut k: usize = 0;
    while k < needle.len()
        invariant
            k <= needle@.len(),
            hay_len == hay@.len(),
            at + needle@.len() <= hay@.len(),
            forall|j: int| 0 <= j < k ==> hay@[at + j] == needle@[j],
        decreases needle@.len() - k,
    {
        if hay[at + k] != needle[k] {
            assert(hay@.subrange(at as int, at + needle@.len())[k as int] != needle@[k as int]);
            return false;
        }
        k = k + 1;
    }
    assert(hay@.subrange(at as int, at + needle@.len()) =~= needle@);
    true
}

/// Whether `needle` occurs in `hay` as a contiguous run.
fn contains_chars(hay: &Vec<char>, needle: &Vec<char>) -> (r: bool)
    ensures
        r == contains_run(hay@, needle@),
{
    if needle.len() > hay.len() {
        return false;
    }
    let last = hay.len() - needle.len();
    let mut i: usize = 0;
    while i <= last
        invariant
            last == hay@.len() - needle@.len(),
            i <= last,
            forall|j: int|
                0 <= j < i ==> #[trigger] hay@.subrange(j, j + needle@.len()) != needle@,
        decreases last + 1 - i,
    {
        if occurs_at(hay, needle, i) {
            assert(hay@.subrange(i as int, i + needle@.len()) == needle@);
            return true;
        }
        if i == last {
            return false;
        }
        i = i + 1;
    }
    false
}

/// A model name in the form the table is searched with.
fn normalize_model(model: &str) -> (r: Vec<char>)
    ensures
        r@ == normalized(model@),
{
    let upper = to_uppercase(model);
    let cs = chars_of(upper.as_str());
    let mut kept: Vec<char> = Vec::new();
    let mut i: usize = 0;
    while i < cs.len()
        invariant
            i <= cs@.len(),
            cs@ == uppercase_of(model@),
            kept@ == model_chars(cs@.take(i as int)),
        decreases cs@.len() - i,
    {
        assert(cs@.take(i as int + 1).drop_last() =~= cs@.take(i as int));
        let c = cs[i];
        if is_alphanumeric(c) || c == '+' {
            kept.push(c);
        }
        i = i + 1;
    }
    assert(cs@.take(i as int) =~= cs@);
    let brand = chars_of("WHATSMINER");
    if starts_with_first(&kept, &brand, brand.len()) {
        assert(brand@.take(brand@.len() as int) =~= brand@);
        let mut rest: Vec<char> = Vec::new();
        let mut j: usize = brand.len();
        while j < kept.len()
            invariant
                brand@.len() <= j <= kept@.len(),
                rest@ == kept@.subrange(brand@.len() as int, j as int),
            decreases kept@.len() - j,
        {
            rest.push(kept[j]);
            j = j + 1;
            assert(rest@ =~= kept@.subrange(brand@.len() as int, j as int));
        }
        assert(rest@ =~= kept@.skip(brand@.len() as int));
        rest
    } else {
        assert(brand@.take(brand@.len() as int) =~= brand@);
        kept
    }
}

/// The first entry whose model starts with the first `len` characters of
/// `name`.
fn find_with_prefix(
    table: &Vec<MinerConfig>,
    models: &Vec<Vec<char>>,
    name: &Vec<char>,
    len: usize,
) -> (r: Option<MinerConfig>)
    requires
        len <= name@.len(),
        models@.len() == table@.len(),
        forall|i: int| 0 <= i < table@.len() ==> (#[trigger] models@[i])@ == table@[i].model@,
    ensures
        r == first_with_prefix(table@, name@.take(len as int), 0),
{
    let mut i: usize = 0;
    while i < table.len()
        invariant
            i <= table@.len(),
            len <= name@.len(),
            models@.len() == table@.len(),
            forall|j: int| 0 <= j < table@.len() ==> (#[trigger] models@[j])@ == table@[j].model@,
            first_with_prefix(table@, name@.take(len as int), 0) == first_with_prefix(
                table@,
                name@.take(len as int),
                i as int,
            ),
        decreases table@.len() - i,
    {
        if starts_with_first(&models[i], name, len) {
            return Some(table[i]);
        }
        i = i + 1;
    }
    None
}

/// The entry of `table` that a normalized model name resolves to.
fn resolve_in(table: &Vec<MinerConfig>, name: &Vec<char>) -> (r: Option<MinerConfig>)
    ensures
        r == resolve(table@, name@),
{
    let mut models: Vec<Vec<char>> = Vec::with_capacity(table.len());
    let mut i: usize = 0;
    while i < table.len()
        invariant
            i <= table@.len(),
            models@.len() == i,
            forall|j: int| 0 <= j < i ==> (#[trigger] models@[j])@ == table@[j].model@,
        decreases table@.len() - i,
    {
        models.push(chars_of(table[i].model));
        i = i + 1;
    }
    let mut i: usize = 0;
    while i < table.len()
        invariant
            i <= table@.len(),
            models@.len() == table@.len(),
            forall|j: int| 0 <= j < table@.len() ==> (#[trigger] models@[j])@ == table@[j].model@,
            first_contained(table@, name@, 0) == first_contained(table@, name@, i as int),
        decreases table@.len() - i,
    {
        if contains_chars(name, &models[i]) {
            return Some(table[i]);
        }
        i = i + 1;
    }
    let mut len: usize = name.len();
    while len >= 4
        invariant
            len <= name@.len(),
            models@.len() == table@.len(),
            forall|j: int| 0 <= j < table@.len() ==> (#[trigger] models@[j])@ == table@[j].model@,
            first_contained(table@, name@, 0) is None,
            longest_prefix_match(table@, name@, name@.len() as int) == longest_prefix_match(
                table@,
                name@,
                len as int,
            ),
        decreases len,
    {
        let found = find_with_prefix(table, &models, name, len);
        if found.is_some() {
            return found;
        }
        len = len - 1;
    }
    let mut k: usize = 0;
    while k < name.len()
        invariant
            k <= name@.len(),
            models@.len() == table@.len(),
            forall|j: int| 0 <= j < table@.len() ==> (#[trigger] models@[j])@ == table@[j].model@,
            first_contained(table@, name@, 0) is None,
            longest_prefix_match(table@, name@, name@.len() as int) is None,
            series_end(name@, 0) == series_end(name@, k as int),
        decreases name@.len() - k,
    {
        if name[k] == 'V' || name[k] == '+' {
            return find_with_prefix(table, &models, name, k);
        }
        k = k + 1;
    }
    None
}

/// The known model that a normalized model name (upper case, only
/// alphanumerics and `+`, without a leading `WHATSMINER`) resolves to.
pub fn lookup_normalized(name: &str) -> (r: Option<MinerConfig>)
    ensures
        r == resolve(known_configs(), name@),
{
    let table = configs();
    let cs = chars_of(name);
    resolve_in(&table, &cs)
}

/// The known model that a model name or hardware string resolves to, after
/// normalizing it.
pub fn lookup(model: &str) -> (r: Option<MinerConfig>)
    ensures
        r == resolve(known_configs(), normalized(model@)),
{
    let table = configs();
    let name = normalize_model(model);
    resolve_in(&table, &name)
}

/// The pair of boards that a word `a:b` of a slot-link setting links.
pub open spec fn link_of(word: Seq<char>) -> Option<(usize, usize)> {
    let parts = split_on(word, ':');
    if parts.len() == 2 && usize_within(parts[0]) is Some && usize_within(parts[1]) is Some {
        Some((usize_within(parts[0])->0 as usize, usize_within(parts[1])->0 as usize))
    } else {
        None
    }
}

/// The pairs that the words link, in order; words that are not `a:b` with
/// two unsigned integers are passed over.
pub open spec fn links_of(words: Seq<Seq<char>>) -> Seq<(usize, usize)>
    decreases words.len(),
{
    if words.len() == 0 {
        Seq::empty()
    } else {
        match link_of(words.last()) {
            Some(l) => links_of(words.drop_last()).push(l),
            None => links_of(words.drop_last()),
        }
    }
}

/// Reads a slot-link setting such as `"0:1 2:3"` into the pairs of board
/// indices it links.
pub fn parse_slot_links(slot_link: &str) -> (r: Vec<(usize, usize)>)
    ensures
        r@ == links_of(split_ws(slot_link@)),
{
    let words = split_ws_chars(&chars_of(slot_link));
    let ghost all = words@.map_values(|w: Vec<char>| w@);
    assert(all =~= split_ws(slot_link@));
    let mut r: Vec<(usize, usize)> = Vec::new();
    let mut i: usize = 0;
    assert(all.take(0) =~= Seq::<Seq<char>>::empty());
    while i < words.len()
        invariant
            i <= words@.len(),
            all == words@.map_values(|w: Vec<char>| w@),
            r@ == links_of(all.take(i as int)),
        decreases words@.len() - i,
    {
        assert(all.take(i as int + 1).drop_last() =~= all.take(i as int));
        let parts = split_chars(&words[i], ':');
        if parts.len() == 2 {
            match (read_usize(&parts[0]), read_usize(&parts[1])) {
                (Some(a), Some(b)) => {
                    r.push((a, b));
                },
                _ => {},
            }
        }
        i = i + 1;
    }
    assert(all.take(i as int) =~= all);
    r
}

/// Chips per domain to compare a miner's boards with: the known model's
/// when there is one, else the guess from the first board's chip count,
/// else 3.
pub fn chips_per_domain_for(config: Option<MinerConfig>, slots: &Vec<Slot>) -> (r: usize)
    ensures
        r as int == match config {
            Some(c) => c.chips_per_domain as int,
            None => if slots@.len() > 0 {
                inferred_cpd(slots@[0].chips@.len() as int)
            } else {
                3
            },
        },
{
    match config {
        Some(c) => c.chips_per_domain as usize,
        None => if slots.len() > 0 {
            infer_chips_per_domain(slots[0].chips.len())
        } else {
            3
        },
    }
}

} // verus!
