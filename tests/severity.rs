use chip_map::severity::{
    board_temp_severity, chip_temp_severity, crc_severity, error_severity, Severity,
};

#[test]
fn chip_temperature_levels() {
    assert_eq!(chip_temp_severity(69), Severity::Cool);
    assert_eq!(chip_temp_severity(70), Severity::Warm);
    assert_eq!(chip_temp_severity(85), Severity::Hot);
    assert_eq!(chip_temp_severity(95), Severity::Critical);
    assert_eq!(chip_temp_severity(-5), Severity::Cool);
}

#[test]
fn board_temperature_levels() {
    assert_eq!(board_temp_severity(4999), Severity::Cool);
    assert_eq!(board_temp_severity(5000), Severity::Warm);
    assert_eq!(board_temp_severity(6530), Severity::Hot);
    assert_eq!(board_temp_severity(8000), Severity::Critical);
}

#[test]
fn error_and_crc_levels() {
    assert_eq!(error_severity(19), Severity::Cool);
    assert_eq!(error_severity(20), Severity::Warm);
    assert_eq!(error_severity(50), Severity::Hot);
    assert_eq!(error_severity(100), Severity::Critical);
    assert_eq!(crc_severity(0), Severity::Cool);
    assert_eq!(crc_severity(1), Severity::Warm);
    assert_eq!(crc_severity(5), Severity::Hot);
    assert_eq!(crc_severity(10), Severity::Critical);
}
