use chip_map::i18n::{Language, LocalizedColorMode, Tr};
use chip_map::models::{Chip, ColorMode, MinerData, Slot};

#[test]
fn texts_follow_language() {
    assert_eq!(Tr::ready(Language::English), "Ready");
    assert_eq!(Tr::ready(Language::Russian), "Готово");
    assert_eq!(Tr::error(Language::Spanish), "Error");
    assert_eq!(Tr::ip(Language::Chinese), "IP");
    assert_eq!(Tr::firmware(Language::Chinese), "固件");
    assert_eq!(Tr::firmware(Language::Polish), "FW");
    assert_eq!(Tr::color_mode_crc(Language::Arabic), "CRC");
    assert_eq!(Tr::app_title(Language::English), "WhatsMiner Chip Map");
}

#[test]
fn language_codes() {
    let codes: Vec<&str> = Language::all().iter().map(|l| l.code()).collect();
    assert_eq!(codes, vec!["en", "ru", "es", "fa", "zh", "uk", "pl", "kk", "ar"]);
    assert_eq!(Language::default(), Language::English);
}

#[test]
fn localized_color_modes() {
    let modes = LocalizedColorMode::all(Language::Spanish);
    assert_eq!(modes.len(), 6);
    assert_eq!(modes[0].mode, ColorMode::Temperature);
    assert_eq!(modes[0].label(), "Temperatura");
    assert_eq!(modes[5].label(), "Nonce");
    assert_eq!(ColorMode::Crc.name(), "CRC");
    assert_eq!(ColorMode::default(), ColorMode::Temperature);
}

#[test]
fn total_chips_counts_every_board() {
    let slot = |n: usize| Slot { chips: vec![Chip::default(); n], ..Default::default() };
    let data = MinerData { slots: vec![slot(3), slot(0), slot(5)] };
    assert_eq!(data.total_chips(), 8);
    assert_eq!(MinerData::default().total_chips(), 0);
}
