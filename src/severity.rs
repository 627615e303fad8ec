//! How alarming a reading is, by the firmware's thresholds.
use vstd::prelude::*;

verus! {

/// Alarm level of a reading, from harmless to critical.
#[derive(Debug, Clone, Copy, PartialEq, Eq, Structural)]
pub enum Severity {
    Cool,
    Warm,
    Hot,
    Critical,
}

/// Chip temperature (degrees Celsius) from which a chip is warm, hot,
/// critical.
pub const CHIP_TEMP_WARM: i64 = 70;
pub const CHIP_TEMP_HOT: i64 = 85;
pub const CHIP_TEMP_CRITICAL: i64 = 95;

/// Board temperature (hundredths of a degree Celsius) from which a board is
/// warm, hot, critical.
pub const BOARD_TEMP_WARM: i64 = 5000;
pub const BOARD_TEMP_HOT: i64 = 6500;
pub const BOARD_TEMP_CRITICAL: i64 = 8000;

/// Error count from which a chip is warm, hot, critical.
pub const ERRORS_WARM: i64 = 20;
pub const ERRORS_HOT: i64 = 50;
pub const ERRORS_CRITICAL: i64 = 100;

/// CRC error count from which a chip is warm, hot, critical.
pub const CRC_WARM: i64 = 1;
pub const CRC_HOT: i64 = 5;
pub const CRC_CRITICAL: i64 = 10;

/// The level of `value` against ascending thresholds.
pub open spec fn level(value: int, warm: int, hot: int, critical: int) -> Severity {
    if value >= critical {
        Severity::Critical
    } else if value >= hot {
        Severity::Hot
    } else if value >= warm {
        Severity::Warm
    } else {
        Severity::Cool
    }
}

fn classify(value: i64, warm: i64, hot: i64, critical: i64) -> (r: Severity)
    ensures
        r == level(value as int, warm as int, hot as int, critical as int),
{
    if value >= critical {
        Severity::Critical
    } else if value >= hot {
        Severity::Hot
    } else if value >= warm {
        Severity::Warm
    } else {
        Severity::Cool
    }
}

/// Level of a chip temperature in degrees Celsius.
pub fn chip_temp_severity(temp: i32) -> (r: Severity)
    ensures
        r == level(temp as int, CHIP_TEMP_WARM as int, CHIP_TEMP_HOT as int, CHIP_TEMP_CRITICAL as int),
{
    classify(temp as i64, CHIP_TEMP_WARM, CHIP_TEMP_HOT, CHIP_TEMP_CRITICAL)
}

/// Level of a board temperature in hundredths of a degree Celsius.
pub fn board_temp_severity(temp_centi: i64) -> (r: Severity)
    ensures
        r == level(
            temp_centi as int,
            BOARD_TEMP_WARM as int,
            BOARD_TEMP_HOT as int,
            BOARD_TEMP_CRITICAL as int,
        ),
{
    classify(temp_centi, BOARD_TEMP_WARM, BOARD_TEMP_HOT, BOARD_TEMP_CRITICAL)
}

/// Level of a chip's error count.
pub fn error_severity(errors: i32) -> (r: Severity)
    ensures
        r == level(errors as int, ERRORS_WARM as int, ERRORS_HOT as int, ERRORS_CRITICAL as int),
{
    classify(errors as i64, ERRORS_WARM, ERRORS_HOT, ERRORS_CRITICAL)
}

/// Level of a chip's CRC error count.
pub fn crc_severity(crc: i32) -> (r: Severity)
    ensures
        r == level(crc as int, CRC_WARM as int, CRC_HOT as int, CRC_CRITICAL as int),
{
    classify(crc as i64, CRC_WARM, CRC_HOT, CRC_CRITICAL)
}

} // verus!
