use chip_map::text::{
    centi_or_zero_in, int_or_zero_in, is_whitespace, read_int, read_usize, split_chars, trimmed,
};

fn chars(s: &str) -> Vec<char> {
    s.chars().collect()
}

#[test]
fn integers_follow_decimal_grammar() {
    let i32_range = (i32::MIN as i64, i32::MAX as i64);
    let read = |s: &str| read_int(&chars(s), i32_range.0, i32_range.1);
    assert_eq!(read("42"), Some(42));
    assert_eq!(read("+42"), Some(42));
    assert_eq!(read("-42"), Some(-42));
    assert_eq!(read("0007"), Some(7));
    assert_eq!(read("-2147483648"), Some(-2147483648));
    assert_eq!(read("2147483648"), None);
    assert_eq!(read("99999999999999999999999999"), None);
    assert_eq!(read(""), None);
    assert_eq!(read("+"), None);
    assert_eq!(read("-"), None);
    assert_eq!(read("4 2"), None);
    assert_eq!(read("4.2"), None);
    assert_eq!(int_or_zero_in(&chars("x1"), i32_range.0, i32_range.1), 0);
    assert_eq!(int_or_zero_in(&chars("9223372036854775807"), i64::MIN, i64::MAX), i64::MAX);
}

#[test]
fn unsigned_integers_take_no_minus() {
    assert_eq!(read_usize(&chars("12")), Some(12));
    assert_eq!(read_usize(&chars("+12")), Some(12));
    assert_eq!(read_usize(&chars("-0")), None);
    assert_eq!(read_usize(&chars("")), None);
}

#[test]
fn decimals_in_hundredths() {
    let read = |s: &str| centi_or_zero_in(&chars(s), i64::MIN, i64::MAX);
    assert_eq!(read("65.3"), 6530);
    assert_eq!(read("65.37"), 6537);
    assert_eq!(read("65.379"), 6537);
    assert_eq!(read("-4.5"), -450);
    assert_eq!(read("1."), 100);
    assert_eq!(read(".5"), 50);
    assert_eq!(read("70"), 7000);
    assert_eq!(read("."), 0);
    assert_eq!(read("1.2.3"), 0);
    assert_eq!(read("abc"), 0);
    assert_eq!(centi_or_zero_in(&chars("30000000"), i32::MIN as i64, i32::MAX as i64), 0);
}

#[test]
fn trimming_and_splitting() {
    assert_eq!(trimmed(&chars("  a b \t")), chars("a b"));
    assert_eq!(trimmed(&chars("   ")), chars(""));
    let pieces = split_chars(&chars("a,,b,"), ',');
    assert_eq!(pieces, vec![chars("a"), chars(""), chars("b"), chars("")]);
    assert_eq!(split_chars(&chars(""), ','), vec![chars("")]);
}

#[test]
fn white_space_matches_std_on_every_char() {
    for code in 0..=0x10_ffffu32 {
        if let Some(c) = char::from_u32(code) {
            assert_eq!(is_whitespace(c), c.is_whitespace(), "U+{code:04X}");
        }
    }
}
