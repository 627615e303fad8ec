//! Snapshot records of one miner: its boards ("slots") and their chips.
use vstd::prelude::*;

verus! {

/// How chip cells are colored by a viewer.
#[derive(Debug, Clone, Copy, Default, PartialEq, Eq, Structural)]
pub enum ColorMode {
    #[default]
    Temperature,
    Errors,
    Crc,
    Gradient,
    Outliers,
    Nonce,
}

impl ColorMode {
    /// Every mode, in the order a picker lists them.
    pub open spec fn all_spec() -> Seq<ColorMode> {
        seq![
            ColorMode::Temperature,
            ColorMode::Errors,
            ColorMode::Crc,
            ColorMode::Gradient,
            ColorMode::Outliers,
            ColorMode::Nonce,
        ]
    }

    /// Every mode, in the order a picker lists them.
    pub fn all() -> (r: Vec<ColorMode>)
        ensures
            r@ == Self::all_spec(),
    {
        vec![
            ColorMode::Temperature,
            ColorMode::Errors,
            ColorMode::Crc,
            ColorMode::Gradient,
            ColorMode::Outliers,
            ColorMode::Nonce,
        ]
    }

    /// The English name of the mode.
    pub fn name(&self) -> (r: &'static str)
        ensures
            r@ == color_mode_name(*self),
    {
        match self {
            ColorMode::Temperature => "Temperature",
            ColorMode::Errors => "Errors",
            ColorMode::Crc => "CRC",
            ColorMode::Gradient => "Gradient",
            ColorMode::Outliers => "Outliers",
            ColorMode::Nonce => "Nonce",
        }
    }
}

pub open spec fn color_mode_name(m: ColorMode) -> Seq<char> {
    match m {
        ColorMode::Temperature => "Temperature"@,
        ColorMode::Errors => "Errors"@,
        ColorMode::Crc => "CRC"@,
        ColorMode::Gradient => "Gradient"@,
        ColorMode::Outliers => "Outliers"@,
        ColorMode::Nonce => "Nonce"@,
    }
}

/// One ASIC chip reading.
#[derive(Debug, Clone)]
pub struct Chip {
    pub id: i32,
    pub freq: i32,
    pub vol: i32,
    /// Temperature in degrees Celsius.
    pub temp: i32,
    /// Count of valid nonces (shares) found by the chip.
    pub nonce: i64,
    pub errors: i32,
    pub crc: i32,
    pub x: i32,
    pub repeat: i32,
    /// First efficiency percentage, in hundredths of a percent.
    pub pct1: i32,
    /// Second efficiency percentage, in hundredths of a percent.
    pub pct2: i32,
}

impl Default for Chip {
    fn default() -> (r: Chip)
        ensures
            r.id == 0 && r.freq == 0 && r.vol == 0 && r.temp == 0 && r.nonce == 0,
            r.errors == 0 && r.crc == 0 && r.x == 0 && r.repeat == 0,
            r.pct1 == 0 && r.pct2 == 0,
    {
        Chip {
            id: 0,
            freq: 0,
            vol: 0,
            temp: 0,
            nonce: 0,
            errors: 0,
            crc: 0,
            x: 0,
            repeat: 0,
            pct1: 0,
            pct2: 0,
        }
    }
}

/// One hash board and its chips, in wiring order.
#[derive(Debug, Clone)]
pub struct Slot {
    pub id: i32,
    pub freq: i32,
    /// Board temperature in hundredths of a degree Celsius.
    pub temp_centi: i64,
    pub step: i32,
    pub nonce_valid: i64,
    pub nonce_rate: i32,
    pub errors: i32,
    pub crc: i32,
    pub chips: Vec<Chip>,
}

impl Default for Slot {
    fn default() -> (r: Slot)
        ensures
            r.id == 0 && r.freq == 0 && r.temp_centi == 0 && r.step == 0,
            r.nonce_valid == 0 && r.nonce_rate == 0 && r.errors == 0 && r.crc == 0,
            r.chips@.len() == 0,
    {
        Slot {
            id: 0,
            freq: 0,
            temp_centi: 0,
            step: 0,
            nonce_valid: 0,
            nonce_rate: 0,
            errors: 0,
            crc: 0,
            chips: Vec::new(),
        }
    }
}

/// Number of chips over all the given slots.
pub open spec fn chip_total(slots: Seq<Slot>) -> int
    decreases slots.len(),
{
    if slots.len() == 0 {
        0
    } else {
        chip_total(slots.drop_last()) + slots.last().chips@.len()
    }
}

/// Everything read from one miner.
#[derive(Debug, Clone, Default)]
pub struct MinerData {
    pub slots: Vec<Slot>,
}

impl MinerData {
    /// Number of chips on all boards together.
    pub fn total_chips(&self) -> (r: usize)
        requires
            chip_total(self.slots@) <= usize::MAX,
        ensures
            r == chip_total(self.slots@),
    {
        let mut total: usize = 0;
        let mut i: usize = 0;
        while i < self.slots.len()
            invariant
                i <= self.slots@.len(),
                total == chip_total(self.slots@.take(i as int)),
                chip_total(self.slots@) <= usize::MAX,
            decreases self.slots@.len() - i,
        {
            proof {
                lemma_chip_total_prefix_le(self.slots@, i as int + 1);
                assert(self.slots@.take(i as int + 1).drop_last() =~= self.slots@.take(i as int));
            }
            total = total + self.slots[i].chips.len();
            i = i + 1;
        }
        assert(self.slots@.take(i as int) =~= self.slots@);
        total
    }
}

/// A prefix of the slots never holds more chips than all of them.
proof fn lemma_chip_total_prefix_le(slots: Seq<Slot>, k: int)
    requires
        0 <= k <= slots.len(),
    ensures
        chip_total(slots.take(k)) <= chip_total(slots),
    decreases slots.len(),
{
    if k < slots.len() {
        assert(slots.drop_last().take(k) =~= slots.take(k));
        lemma_chip_total_prefix_le(slots.drop_last(), k);
    } else {
        assert(slots.take(k) =~= slots);
    }
}

/// Identity of the miner as shown on its status page.
#[derive(Debug, Clone, Default)]
pub struct SystemInfo {
    pub model: String,
    pub hardware_info: String,
    pub firmware_version: String,
}

} // verus!
