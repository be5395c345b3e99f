use as3935::interface::i2c::{field_of, merge_field};
use as3935::registers::{calculate_bitshift, Mode, Register};

#[test]
fn bitshift_of_masks_starting_at_bit_zero() {
    assert_eq!(calculate_bitshift(0b0000_0001), 0);
    assert_eq!(calculate_bitshift(0b0000_1111), 0);
    assert_eq!(calculate_bitshift(0b1111_1111), 0);
}

#[test]
fn bitshift_of_masks_starting_higher() {
    assert_eq!(calculate_bitshift(0b0011_1110), 1);
    assert_eq!(calculate_bitshift(0b0011_0000), 4);
    assert_eq!(calculate_bitshift(0b0111_0000), 4);
    assert_eq!(calculate_bitshift(0b0010_0000), 5);
    assert_eq!(calculate_bitshift(0b1100_0000), 6);
    assert_eq!(calculate_bitshift(0b1000_0000), 7);
}

#[test]
fn bitshift_of_empty_mask_is_zero() {
    assert_eq!(calculate_bitshift(0), 0);
}

#[test]
fn catalog_entries() {
    assert_eq!(Register::AfeGainBoost.address(), 0x00);
    assert_eq!(Register::AfeGainBoost.mask(), 0b0011_1110);
    assert_eq!(Register::AfeGainBoost.default_value(), 0b1_0010);
    assert_eq!(Register::AfeGainBoost.mode(), Mode::ReadWrite);
    assert_eq!(Register::AfeGainBoost.name(), "AFE_GB");
    assert_eq!(Register::CalibrateOscillators.address(), 0x3D);
    assert_eq!(Register::CalibrateOscillators.mode(), Mode::Write);
    assert_eq!(Register::PresetDefault.address(), 0x3C);
    assert_eq!(Register::Interrupt.mode(), Mode::Read);
    assert_eq!(Register::Interrupt.mask(), 0b0000_1111);
    assert_eq!(Register::DistanceEstimation.address(), 0x07);
    assert_eq!(Register::DistanceEstimation.mask(), 0b0011_1111);
    assert_eq!(Register::NoiseFloorLevel.default_value(), 0b010);
    assert_eq!(Register::WatchdogThreshold.default_value(), 0b0001);
    assert_eq!(Register::DisplayTrcoOnIrqPin.name(), "DISP_TRCO");
    assert_eq!(Register::PowerDown.mask(), 0b0000_0001);
}

#[test]
fn every_catalog_mask_is_nonzero_and_contiguous() {
    let all = [
        Register::AfeGainBoost,
        Register::CalibrateOscillators,
        Register::ClearStatistics,
        Register::DisplayLcoOnIrqPin,
        Register::DisplaySrcoOnIrqPin,
        Register::DisplayTrcoOnIrqPin,
        Register::DistanceEstimation,
        Register::FrequencyDivisionRationForAntennaTuning,
        Register::InternalTuningCapacitors,
        Register::Interrupt,
        Register::MaskDisturber,
        Register::MinimumNumberOfLightning,
        Register::NoiseFloorLevel,
        Register::PowerDown,
        Register::PresetDefault,
        Register::SpikeRejection,
        Register::WatchdogThreshold,
    ];
    for r in all {
        let mask = r.mask();
        assert_ne!(mask, 0);
        let field = mask >> calculate_bitshift(mask);
        assert_eq!(field & 1, 1);
        assert_eq!(field & field.wrapping_add(1), 0);
        assert!(!r.description().is_empty());
    }
}

#[test]
fn merge_field_keeps_the_other_bits() {
    assert_eq!(merge_field(0b0000_0010, Register::MinimumNumberOfLightning, 0b01), 0b0001_0010);
    assert_eq!(merge_field(0b1111_1111, Register::MinimumNumberOfLightning, 0b00), 0b1100_1111);
    assert_eq!(merge_field(0b1000_0001, Register::AfeGainBoost, 0b1_0010), 0b1010_0101);
    assert_eq!(merge_field(0b0000_0000, Register::PowerDown, 1), 0b0000_0001);
    assert_eq!(merge_field(0b1111_1111, Register::PowerDown, 0), 0b1111_1110);
    assert_eq!(merge_field(0x12, Register::CalibrateOscillators, 0x96), 0x96);
}

#[test]
fn field_of_masks_and_shifts_down() {
    assert_eq!(field_of(0b0001_0010, Register::MinimumNumberOfLightning), 0b01);
    assert_eq!(field_of(0b1111_1111, Register::NoiseFloorLevel), 0b111);
    assert_eq!(field_of(0b1100_1010, Register::DistanceEstimation), 0b00_1010);
    assert_eq!(field_of(0b1111_1000, Register::Interrupt), 0b1000);
    assert_eq!(field_of(0b0010_0101, Register::AfeGainBoost), 0b1_0010);
}

#[test]
fn merged_field_reads_back() {
    for current in [0u8, 0b0101_0101, 0xFF] {
        for value in 0u8..=3 {
            let byte = merge_field(current, Register::MinimumNumberOfLightning, value);
            assert_eq!(field_of(byte, Register::MinimumNumberOfLightning), value);
            assert_eq!(byte & !0b0011_0000, current & !0b0011_0000);
        }
    }
}

#[test]
fn names_and_descriptions() {
    assert_eq!(Register::MinimumNumberOfLightning.name(), "MIN_NUM_LIGH");
    assert_eq!(Register::PresetDefault.description(), "Sets all registers in default mode");
    assert_eq!(Register::NoiseFloorLevel.description(), "Noise floor level");
}
