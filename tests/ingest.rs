use chip_map::ingest::{
    extract_table_value, parse_chip_line, parse_html, parse_nonce_line, parse_overview_html,
    parse_slot_header, parse_text, ParseError,
};
use chip_map::models::Slot;

fn chars(s: &str) -> Vec<char> {
    s.chars().collect()
}

const LOG: &str = "\
boot noise
slot: 0, freq: 575, temp: 65.3, step: 2
nonce valid: 981367(3182/s), err: 5, crc: 1
C0 freq:575 vol:1330 temp:75 nonce:981 err:0 crc:0 x:0 repeat:0 pct: 98.8%/ 94.1%
C1 freq:570 vol:1330 temp:80 nonce:500 err:2 crc:1 x:3 repeat:4 pct: 97.0%/ 90.5%
slot: 1, freq: 600, temp: 70, step: 1
   C0 freq:600 vol:1300 temp:60 nonce:1000 err:0 crc:0 x:0 repeat:0
";

#[test]
fn slot_header_fields() {
    let slot = parse_slot_header(&chars("slot: 2, freq: 575, temp: 65.37, step: 3"));
    assert_eq!(slot.id, 2);
    assert_eq!(slot.freq, 575);
    assert_eq!(slot.temp_centi, 6537);
    assert_eq!(slot.step, 3);
    assert!(slot.chips.is_empty());
}

#[test]
fn slot_header_bad_values_read_as_zero() {
    let slot = parse_slot_header(&chars("slot: x, freq: 99999999999, temp: -4.5, junk"));
    assert_eq!(slot.id, 0);
    assert_eq!(slot.freq, 0);
    assert_eq!(slot.temp_centi, -450);
}

#[test]
fn nonce_line_sets_counters() {
    let mut slot = Slot { id: 7, ..Default::default() };
    parse_nonce_line(&chars("nonce valid: 981367(3182/s), err: 5, crc: 1"), &mut slot);
    assert_eq!(slot.nonce_valid, 981_367);
    assert_eq!(slot.nonce_rate, 3182);
    assert_eq!(slot.errors, 5);
    assert_eq!(slot.crc, 1);
    assert_eq!(slot.id, 7);
}

#[test]
fn nonce_line_without_parenthesis_keeps_counts() {
    let mut slot = Slot { nonce_valid: 3, nonce_rate: 4, ..Default::default() };
    parse_nonce_line(&chars("nonce valid: 12, err: 9"), &mut slot);
    assert_eq!(slot.nonce_valid, 3);
    assert_eq!(slot.nonce_rate, 4);
    assert_eq!(slot.errors, 9);
}

#[test]
fn chip_line_fields() {
    let chip = parse_chip_line(&chars(
        "C12 freq:575 vol:1330 temp:75 nonce:981 err:2 crc:1 x:3 repeat:4 pct: 98.8%/ 94.15%",
    ))
    .unwrap();
    assert_eq!(chip.id, 12);
    assert_eq!(chip.freq, 575);
    assert_eq!(chip.vol, 1330);
    assert_eq!(chip.temp, 75);
    assert_eq!(chip.nonce, 981);
    assert_eq!(chip.errors, 2);
    assert_eq!(chip.crc, 1);
    assert_eq!(chip.x, 3);
    assert_eq!(chip.repeat, 4);
    assert_eq!(chip.pct1, 9880);
    assert_eq!(chip.pct2, 9415);
}

#[test]
fn chip_line_with_unreadable_id_is_skipped() {
    assert!(parse_chip_line(&chars("Cx freq:575")).is_none());
    assert!(parse_chip_line(&chars("C12")).is_none());
}

#[test]
fn log_groups_lines_by_board() {
    let data = parse_text(LOG).unwrap();
    assert_eq!(data.slots.len(), 2);
    let s0 = &data.slots[0];
    assert_eq!((s0.id, s0.freq, s0.temp_centi, s0.step), (0, 575, 6530, 2));
    assert_eq!((s0.nonce_valid, s0.nonce_rate, s0.errors, s0.crc), (981_367, 3182, 5, 1));
    assert_eq!(s0.chips.len(), 2);
    assert_eq!(s0.chips[1].temp, 80);
    assert_eq!(s0.chips[1].nonce, 500);
    let s1 = &data.slots[1];
    assert_eq!(s1.temp_centi, 7000);
    assert_eq!(s1.chips.len(), 1);
    assert_eq!(s1.chips[0].nonce, 1000);
}

#[test]
fn log_without_boards_fails() {
    assert_eq!(parse_text("C0 freq:1 temp:2\nnothing").unwrap_err(), ParseError::NoSlots);
    assert_eq!(parse_text("").unwrap_err(), ParseError::NoSlots);
    assert_eq!(ParseError::NoSlots.message(), "No slots found");
}

#[test]
fn html_page_yields_log() {
    let page = format!("<html><textarea id=\"syslog\">{LOG}</textarea></html>");
    let data = parse_html(&page).unwrap();
    assert_eq!(data.slots.len(), 2);
    assert_eq!(parse_html("<html></html>").unwrap_err(), ParseError::MissingTextarea);
    assert_eq!(
        parse_html("<textarea id=\"syslog\">slot: 1").unwrap_err(),
        ParseError::UnclosedTextarea
    );
}

#[test]
fn overview_rows() {
    let page = "<tr><td width=\"33%\">Model</td><td>WhatsMiner M50S_VH55</td></tr>\
                <tr><td>Firmware Version</td><td>20230101</td></tr>";
    let info = parse_overview_html(page);
    assert_eq!(info.model, "WhatsMiner M50S_VH55");
    assert_eq!(info.hardware_info, "");
    assert_eq!(info.firmware_version, "20230101");
    assert_eq!(extract_table_value(page, "Model").as_deref(), Some("WhatsMiner M50S_VH55"));
    assert_eq!(extract_table_value(page, "Hardware Info"), None);
}

#[test]
fn trimming_uses_unicode_white_space() {
    // a no-break space is white space and is trimmed from the value
    let slot = parse_slot_header(&chars("slot:\u{a0}4\u{a0}"));
    assert_eq!(slot.id, 4);
}
