//! The chip's register map: one descriptor per addressable field, and the
//! bit arithmetic that places a field value inside its byte.
use vstd::prelude::*;

verus! {

/// Access types that a register field supports.
#[derive(Clone, Copy, Debug, PartialEq, Eq, Structural)]
pub enum Mode {
    Read,
    Write,
    ReadWrite,
}

/// Every register field of the chip that the driver knows of.
#[derive(Clone, Copy, Debug, PartialEq, Eq, Structural)]
pub enum Register {
    AfeGainBoost,
    CalibrateOscillators,
    ClearStatistics,
    DisplayLcoOnIrqPin,
    DisplaySrcoOnIrqPin,
    DisplayTrcoOnIrqPin,
    DistanceEstimation,
    FrequencyDivisionRationForAntennaTuning,
    InternalTuningCapacitors,
    Interrupt,
    MaskDisturber,
    MinimumNumberOfLightning,
    NoiseFloorLevel,
    PowerDown,
    PresetDefault,
    SpikeRejection,
    WatchdogThreshold,
}

/// The first bit position at or above `i` that is set in `mask`, or 0 when
/// there is none.
pub open spec fn scan_set_bit(mask: u8, i: nat) -> nat
    decreases 8 - i,
{
    if i >= 8 {
        0
    } else if (mask >> (i as u8)) & 1 == 1 {
        i
    } else {
        scan_set_bit(mask, i + 1)
    }
}

/// Position of the least-significant set bit of `mask` (0 for an empty mask).
pub open spec fn lowest_set_bit(mask: u8) -> u8 {
    scan_set_bit(mask, 0) as u8
}

/// The largest value that fits the field that `mask` selects.
pub open spec fn field_max(mask: u8) -> u8 {
    mask >> lowest_set_bit(mask)
}

/// The value of the field that `mask` selects within `raw`.
pub open spec fn extract_field(raw: u8, mask: u8) -> u8 {
    (raw & mask) >> lowest_set_bit(mask)
}

/// `current` with the bits of `mask` replaced by `value` moved into place.
pub open spec fn insert_field(current: u8, mask: u8, value: u8) -> u8 {
    (current & !mask) | ((value << lowest_set_bit(mask)) as u8)
}

/// `mask` is a non-empty run of contiguous bits that starts at bit `shift`.
pub open spec fn contiguous_from(mask: u8, shift: u8) -> bool {
    &&& shift < 8
    &&& (mask >> shift) & 1 == 1
    &&& (mask >> shift) << shift == mask
    &&& (mask >> shift) & (((mask >> shift) as int + 1) as u8) == 0
}

impl Register {
    pub open spec fn spec_address(self) -> u8 {
        match self {
            Register::AfeGainBoost => 0x00,
            Register::CalibrateOscillators => 0x3D,
            Register::ClearStatistics => 0x02,
            Register::DisplayLcoOnIrqPin => 0x08,
            Register::DisplaySrcoOnIrqPin => 0x08,
            Register::DisplayTrcoOnIrqPin => 0x08,
            Register::DistanceEstimation => 0x07,
            Register::FrequencyDivisionRationForAntennaTuning => 0x03,
            Register::InternalTuningCapacitors => 0x08,
            Register::Interrupt => 0x03,
            Register::MaskDisturber => 0x03,
            Register::MinimumNumberOfLightning => 0x02,
            Register::NoiseFloorLevel => 0x01,
            Register::PowerDown => 0x00,
            Register::PresetDefault => 0x3C,
            Register::SpikeRejection => 0x02,
            Register::WatchdogThreshold => 0x01,
        }
    }

    pub open spec fn spec_mask(self) -> u8 {
        match self {
            Register::AfeGainBoost => 0b0011_1110,
            Register::CalibrateOscillators => 0b1111_1111,
            Register::ClearStatistics => 0b0100_0000,
            Register::DisplayLcoOnIrqPin => 0b1000_0000,
            Register::DisplaySrcoOnIrqPin => 0b0100_0000,
            Register::DisplayTrcoOnIrqPin => 0b0010_0000,
            Register::DistanceEstimation => 0b0011_1111,
            Register::FrequencyDivisionRationForAntennaTuning => 0b1100_0000,
            Register::InternalTuningCapacitors => 0b0000_1111,
            Register::Interrupt => 0b0000_1111,
            Register::MaskDisturber => 0b0010_0000,
            Register::MinimumNumberOfLightning => 0b0011_0000,
            Register::NoiseFloorLevel => 0b0111_0000,
            Register::PowerDown => 0b0000_0001,
            Register::PresetDefault => 0b1111_1111,
            Register::SpikeRejection => 0b0000_1111,
            Register::WatchdogThreshold => 0b0000_1111,
        }
    }

    pub open spec fn spec_mode(self) -> Mode {
        match self {
            Register::CalibrateOscillators | Register::PresetDefault => Mode::Write,
            Register::DistanceEstimation | Register::Interrupt => Mode::Read,
            _ => Mode::ReadWrite,
        }
    }

    pub open spec fn spec_default_value(self) -> u8 {
        match self {
            Register::AfeGainBoost => 0b1_0010,
            Register::ClearStatistics => 0b1,
            Register::NoiseFloorLevel => 0b010,
            Register::SpikeRejection => 0b0010,
            Register::WatchdogThreshold => 0b0001,
            _ => 0,
        }
    }

    /// Bit position of the field's least-significant bit, as the datasheet
    /// places it.
    pub open spec fn spec_shift(self) -> u8 {
        match self {
            Register::AfeGainBoost => 1,
            Register::ClearStatistics => 6,
            Register::DisplayLcoOnIrqPin => 7,
            Register::DisplaySrcoOnIrqPin => 6,
            Register::DisplayTrcoOnIrqPin => 5,
            Register::FrequencyDivisionRationForAntennaTuning => 6,
            Register::MaskDisturber => 5,
            Register::MinimumNumberOfLightning => 4,
            Register::NoiseFloorLevel => 4,
            _ => 0,
        }
    }

    /// The largest value that the field holds.
    pub open spec fn spec_max(self) -> u8 {
        field_max(self.spec_mask())
    }

    /// Register's name as the datasheet's register map gives it.
    /// The register's name.
    pub open spec fn spec_name(self) -> Seq<char> {
        match self {
            Register::AfeGainBoost => "AFE_GB"@,
            Register::CalibrateOscillators => "CALIB_RCO"@,
            Register::ClearStatistics => "CL_STAT"@,
            Register::DisplayLcoOnIrqPin => "DISP_LCO"@,
            Register::DisplaySrcoOnIrqPin => "DISP_SRCO"@,
            Register::DisplayTrcoOnIrqPin => "DISP_TRCO"@,
            Register::DistanceEstimation => "DISTANCE"@,
            Register::FrequencyDivisionRationForAntennaTuning => "LCO_FDIV"@,
            Register::InternalTuningCapacitors => "TUN_CAP"@,
            Register::Interrupt => "INT"@,
            Register::MaskDisturber => "MASK_DIST"@,
            Register::MinimumNumberOfLightning => "MIN_NUM_LIGH"@,
            Register::NoiseFloorLevel => "NF_LEV"@,
            Register::PowerDown => "PWD"@,
            Register::PresetDefault => "PRESET_DEFAULT"@,
            Register::SpikeRejection => "SREJ"@,
            Register::WatchdogThreshold => "WDTH"@,
        }
    }

    pub fn name(&self) -> (r: &'static str)
        ensures
            r@ == self.spec_name(),
    {
        match self {
            Register::AfeGainBoost => "AFE_GB",
            Register::CalibrateOscillators => "CALIB_RCO",
            Register::ClearStatistics => "CL_STAT",
            Register::DisplayLcoOnIrqPin => "DISP_LCO",
            Register::DisplaySrcoOnIrqPin => "DISP_SRCO",
            Register::DisplayTrcoOnIrqPin => "DISP_TRCO",
            Register::DistanceEstimation => "DISTANCE",
            Register::FrequencyDivisionRationForAntennaTuning => "LCO_FDIV",
            Register::InternalTuningCapacitors => "TUN_CAP",
            Register::Interrupt => "INT",
            Register::MaskDisturber => "MASK_DIST",
            Register::MinimumNumberOfLightning => "MIN_NUM_LIGH",
            Register::NoiseFloorLevel => "NF_LEV",
            Register::PowerDown => "PWD",
            Register::PresetDefault => "PRESET_DEFAULT",
            Register::SpikeRejection => "SREJ",
            Register::WatchdogThreshold => "WDTH",
        }
    }

    /// Register's description as the datasheet's register map gives it.
    /// The register's description.
    pub open spec fn spec_description(self) -> Seq<char> {
        match self {
            Register::AfeGainBoost => "AFE Gain Boost"@,
            Register::CalibrateOscillators => "Calibrates automatically the internal RC Oscillators"@,
            Register::ClearStatistics => "Clear statistics"@,
            Register::DisplayLcoOnIrqPin => "Display LCO on IRQ pin"@,
            Register::DisplaySrcoOnIrqPin => "Display SRCO on IRQ pin"@,
            Register::DisplayTrcoOnIrqPin => "Display TRCO on IRQ pin"@,
            Register::DistanceEstimation => "Distance estimation"@,
            Register::FrequencyDivisionRationForAntennaTuning => "Frequency division ration for antenna tuning"@,
            Register::InternalTuningCapacitors => "Internal Tuning Capacitors (from 0 to 120pF in steps of 8pf)"@,
            Register::Interrupt => "Interrupt"@,
            Register::MaskDisturber => "Mask Disturber"@,
            Register::MinimumNumberOfLightning => "Minimum number of lightning"@,
            Register::NoiseFloorLevel => "Noise floor level"@,
            Register::PowerDown => "Power-down"@,
            Register::PresetDefault => "Sets all registers in default mode"@,
            Register::SpikeRejection => "Spike rejection"@,
            Register::WatchdogThreshold => "Watchdog threshold"@,
        }
    }

    pub fn description(&self) -> (r: &'static str)
        ensures
            r@ == self.spec_description(),
    {
        match self {
            Register::AfeGainBoost => "AFE Gain Boost",
            Register::CalibrateOscillators => "Calibrates automatically the internal RC Oscillators",
            Register::ClearStatistics => "Clear statistics",
            Register::DisplayLcoOnIrqPin => "Display LCO on IRQ pin",
            Register::DisplaySrcoOnIrqPin => "Display SRCO on IRQ pin",
            Register::DisplayTrcoOnIrqPin => "Display TRCO on IRQ pin",
            Register::DistanceEstimation => "Distance estimation",
            Register::FrequencyDivisionRationForAntennaTuning => "Frequency division ration for antenna tuning",
            Register::InternalTuningCapacitors => "Internal Tuning Capacitors (from 0 to 120pF in steps of 8pf)",
            Register::Interrupt => "Interrupt",
            Register::MaskDisturber => "Mask Disturber",
            Register::MinimumNumberOfLightning => "Minimum number of lightning",
            Register::NoiseFloorLevel => "Noise floor level",
            Register::PowerDown => "Power-down",
            Register::PresetDefault => "Sets all registers in default mode",
            Register::SpikeRejection => "Spike rejection",
            Register::WatchdogThreshold => "Watchdog threshold",
        }
    }

    pub fn address(&self) -> (r: u8)
        ensures
            r == self.spec_address(),
    {
        match self {
            Register::AfeGainBoost => 0x00,
            Register::CalibrateOscillators => 0x3D,
            Register::ClearStatistics => 0x02,
            Register::DisplayLcoOnIrqPin => 0x08,
            Register::DisplaySrcoOnIrqPin => 0x08,
            Register::DisplayTrcoOnIrqPin => 0x08,
            Register::DistanceEstimation => 0x07,
            Register::FrequencyDivisionRationForAntennaTuning => 0x03,
            Register::InternalTuningCapacitors => 0x08,
            Register::Interrupt => 0x03,
            Register::MaskDisturber => 0x03,
            Register::MinimumNumberOfLightning => 0x02,
            Register::NoiseFloorLevel => 0x01,
            Register::PowerDown => 0x00,
            Register::PresetDefault => 0x3C,
            Register::SpikeRejection => 0x02,
            Register::WatchdogThreshold => 0x01,
        }
    }

    pub fn mode(&self) -> (r: Mode)
        ensures
            r == self.spec_mode(),
    {
        match self {
            Register::CalibrateOscillators | Register::PresetDefault => Mode::Write,
            Register::DistanceEstimation | Register::Interrupt => Mode::Read,
            _ => Mode::ReadWrite,
        }
    }

    pub fn mask(&self) -> (r: u8)
        ensures
            r == self.spec_mask(),
    {
        match self {
            Register::AfeGainBoost => 0b0011_1110,
            Register::CalibrateOscillators => 0b1111_1111,
            Register::ClearStatistics => 0b0100_0000,
            Register::DisplayLcoOnIrqPin => 0b1000_0000,
            Register::DisplaySrcoOnIrqPin => 0b0100_0000,
            Register::DisplayTrcoOnIrqPin => 0b0010_0000,
            Register::DistanceEstimation => 0b0011_1111,
            Register::FrequencyDivisionRationForAntennaTuning => 0b1100_0000,
            Register::InternalTuningCapacitors => 0b0000_1111,
            Register::Interrupt => 0b0000_1111,
            Register::MaskDisturber => 0b0010_0000,
            Register::MinimumNumberOfLightning => 0b0011_0000,
            Register::NoiseFloorLevel => 0b0111_0000,
            Register::PowerDown => 0b0000_0001,
            Register::PresetDefault => 0b1111_1111,
            Register::SpikeRejection => 0b0000_1111,
            Register::WatchdogThreshold => 0b0000_1111,
        }
    }

    pub fn default_value(&self) -> (r: u8)
        ensures
            r == self.spec_default_value(),
    {
        match self {
            Register::AfeGainBoost => 0b1_0010,
            Register::ClearStatistics => 0b1,
            Register::NoiseFloorLevel => 0b010,
            Register::SpikeRejection => 0b0010,
            Register::WatchdogThreshold => 0b0001,
            _ => 0,
        }
    }
}

/// Position of the least-significant set bit of `mask`: the first of the
/// positions 0 to 7 whose bit is set, or 0 when none is.
pub fn calculate_bitshift(mask: u8) -> (r: u8)
    ensures
        r == lowest_set_bit(mask),
{
    let mut i: u8 = 0;
    while i < 8
        invariant
            i <= 8,
            scan_set_bit(mask, i as nat) == scan_set_bit(mask, 0),
        decreases 8 - i,
    {
        if (mask >> i) & 1 == 1 {
            return i;
        }
        i = i + 1;
    }
    0
}

proof fn lemma_low_bit_clear(mask: u8, shift: u8, j: u8)
    by (bit_vector)
    requires
        j < shift,
        shift < 8,
        (mask >> shift) << shift == mask,
    ensures
        (mask >> j) & 1 == 0,
{
}

proof fn lemma_scan_finds(mask: u8, shift: u8, i: nat)
    requires
        i <= shift,
        contiguous_from(mask, shift),
    ensures
        scan_set_bit(mask, i) == shift as nat,
    decreases shift - i,
{
    if i < shift {
        lemma_low_bit_clear(mask, shift, i as u8);
        lemma_scan_finds(mask, shift, i + 1);
    }
}

proof fn lemma_field_round_trip(current: u8, mask: u8, shift: u8, value: u8)
    by (bit_vector)
    requires
        shift < 8,
        (mask >> shift) << shift == mask,
        (mask >> shift) & (((mask >> shift) as int + 1) as u8) == 0,
        value <= mask >> shift,
    ensures
        (((current & !mask) | ((value << shift) as u8)) & mask) >> shift == value,
        ((current & !mask) | ((value << shift) as u8)) & !mask == current & !mask,
{
}

proof fn lemma_known_masks(mask: u8, shift: u8)
    by (bit_vector)
    requires
        (mask == 0x3E && shift == 1) || (mask == 0xFF && shift == 0) || (mask == 0x40 && shift
            == 6) || (mask == 0x80 && shift == 7) || (mask == 0x20 && shift == 5) || (mask == 0x3F
            && shift == 0) || (mask == 0xC0 && shift == 6) || (mask == 0x0F && shift == 0) || (mask
            == 0x30 && shift == 4) || (mask == 0x70 && shift == 4) || (mask == 0x01 && shift == 0),
    ensures
        shift < 8,
        (mask >> shift) & 1 == 1,
        (mask >> shift) << shift == mask,
        (mask >> shift) & (((mask >> shift) as int + 1) as u8) == 0,
        (mask == 0x3E ==> mask >> shift == 31) && (mask == 0xFF ==> mask >> shift == 255) && (mask
            == 0x3F ==> mask >> shift == 63) && (mask == 0xC0 ==> mask >> shift == 3) && (mask
            == 0x0F ==> mask >> shift == 15) && (mask == 0x30 ==> mask >> shift == 3) && (mask
            == 0x70 ==> mask >> shift == 7) && ((mask == 0x40 || mask == 0x80 || mask == 0x20
            || mask == 0x01) ==> mask >> shift == 1),
{
}

/// Each descriptor's mask is one non-empty run of contiguous bits, which
/// starts at the position that the datasheet gives for the field.
pub proof fn lemma_catalog_masks(r: Register)
    ensures
        contiguous_from(r.spec_mask(), r.spec_shift()),
        lowest_set_bit(r.spec_mask()) == r.spec_shift(),
        r.spec_mask() != 0,
{
    let m = r.spec_mask();
    let s = r.spec_shift();
    lemma_known_masks(m, s);
    lemma_scan_finds(m, s, 0);
}

/// The largest value of each field, from the width of its mask.
pub proof fn lemma_field_max_values(r: Register)
    ensures
        r.spec_max() == match r {
            Register::AfeGainBoost => 31u8,
            Register::CalibrateOscillators | Register::PresetDefault => 255u8,
            Register::DistanceEstimation => 63u8,
            Register::FrequencyDivisionRationForAntennaTuning
            | Register::MinimumNumberOfLightning => 3u8,
            Register::InternalTuningCapacitors | Register::Interrupt | Register::SpikeRejection
            | Register::WatchdogThreshold => 15u8,
            Register::NoiseFloorLevel => 7u8,
            _ => 1u8,
        },
{
    lemma_catalog_masks(r);
    lemma_known_masks(r.spec_mask(), r.spec_shift());
}

/// Writing a value that fits a field and reading the field back gives that
/// value; the bits outside the field keep what they held.
pub proof fn lemma_write_then_read(r: Register, current: u8, value: u8)
    requires
        value <= r.spec_max(),
    ensures
        extract_field(insert_field(current, r.spec_mask(), value), r.spec_mask()) == value,
        insert_field(current, r.spec_mask(), value) & !r.spec_mask() == current & !r.spec_mask(),
{
    lemma_catalog_masks(r);
    lemma_field_round_trip(current, r.spec_mask(), r.spec_shift(), value);
}

} // verus!
