use chip_map::config::{chips_per_domain_for, lookup, lookup_normalized, parse_slot_links};
use chip_map::models::{Chip, Slot};

#[test]
fn test_lookup_whatsminer_m50s_vh55() {
    let result = lookup("WhatsMiner M50S_VH55");
    assert!(result.is_some(), "Should find config for M50S_VH55");
    let cfg = result.unwrap();
    assert_eq!(cfg.chips_per_domain, 3, "M50S should have 3 chips per domain");
    println!(
        "Found: {} with {} chips, {} chips/domain",
        cfg.model, cfg.chip_num, cfg.chips_per_domain
    );
}

#[test]
fn test_lookup_exact_match() {
    let result = lookup("M50SVH50");
    assert!(result.is_some());
    assert_eq!(result.unwrap().model, "M50SVH50");
}

#[test]
fn test_lookup_m50s_plusplus_vk40() {
    let result = lookup("WhatsMiner M50S++_VK40");
    assert!(result.is_some(), "Should find config for M50S++_VK40");
    let cfg = result.unwrap();
    assert_eq!(cfg.model, "M50S++VK40");
    println!(
        "Found: {} with {} chips, {} chips/domain",
        cfg.model, cfg.chip_num, cfg.chips_per_domain
    );
}

#[test]
fn test_lookup_m50s_plusplus_hardware_string() {
    let result = lookup("M50S++_VK40.H616-CB6V10.P222B-VE1-197806A");
    assert!(result.is_some(), "Should find config from hardware string");
    let cfg = result.unwrap();
    assert_eq!(cfg.model, "M50S++VK40");
}

#[test]
fn lookup_upper_cases_its_input() {
    let cfg = lookup("whatsminer m50svh50").unwrap();
    assert_eq!(cfg.model, "M50SVH50");
}

#[test]
fn lookup_drops_punctuation() {
    let cfg = lookup("M5-0SVH50").unwrap();
    assert_eq!(cfg.model, "M50SVH50");
}

#[test]
fn lookup_normalized_takes_name_as_given() {
    assert_eq!(lookup_normalized("M50SVH50").unwrap().model, "M50SVH50");
    assert!(lookup_normalized("m50svh50").is_none());
    assert!(lookup_normalized("").is_none());
    assert!(lookup("").is_none());
}

#[test]
fn geometry_of_a_config() {
    let cfg = lookup("M50SVH50").unwrap();
    assert_eq!(cfg.domains_per_board(), cfg.chip_num / cfg.chips_per_domain as u16);
    assert_eq!(cfg.chips_per_board(), cfg.chip_num / cfg.board_num as u16);
}

#[test]
fn slot_links_read_pairs() {
    assert_eq!(parse_slot_links("0:1 2:3"), vec![(0, 1), (2, 3)]);
    assert_eq!(parse_slot_links("  0:1\t\n4:5  "), vec![(0, 1), (4, 5)]);
    assert_eq!(parse_slot_links("0:1:2 a:1 -1:2 +3:4 5"), vec![(3, 4)]);
    assert_eq!(parse_slot_links(""), Vec::<(usize, usize)>::new());
}

#[test]
fn chips_per_domain_fallback() {
    let board = |n: usize| Slot { chips: vec![Chip::default(); n], ..Default::default() };
    let cfg = lookup("M50SVH50").unwrap();
    assert_eq!(chips_per_domain_for(Some(cfg), &vec![board(120)]), cfg.chips_per_domain as usize);
    assert_eq!(chips_per_domain_for(None, &vec![board(120), board(7)]), 2);
    assert_eq!(chips_per_domain_for(None, &vec![board(7)]), 3);
    assert_eq!(chips_per_domain_for(None, &vec![]), 3);
}
