use as3935::interface::i2c::{I2cAddress, DEFAULT_I2C_ADDRESS};
use as3935::{
    IgnoreDisturbances, ListeningParameters, MinimumLightningThreshold, NoiseFloorThreshold,
    SensorPlacing, SignalVerificationThreshold,
};

#[test]
fn noise_floor_threshold_bounds() {
    assert_eq!(NoiseFloorThreshold::new(0).unwrap().code(), 0);
    assert_eq!(NoiseFloorThreshold::new(11).unwrap().code(), 11);
    assert!(NoiseFloorThreshold::new(12).is_err());
    assert!(NoiseFloorThreshold::new(255).is_err());
}

#[test]
fn signal_verification_threshold_bounds() {
    assert_eq!(SignalVerificationThreshold::new(0).unwrap().code(), 0);
    assert_eq!(SignalVerificationThreshold::new(10).unwrap().code(), 10);
    assert!(SignalVerificationThreshold::new(11).is_err());
}

#[test]
fn codes_of_enumerated_values() {
    assert_eq!(SensorPlacing::Indoor.code(), 0b1_0010);
    assert_eq!(SensorPlacing::Outdoor.code(), 0b0_1110);
    assert_eq!(MinimumLightningThreshold::One.code(), 0b00);
    assert_eq!(MinimumLightningThreshold::Five.code(), 0b01);
    assert_eq!(MinimumLightningThreshold::Nine.code(), 0b10);
    assert_eq!(MinimumLightningThreshold::Sixteen.code(), 0b11);
    assert_eq!(IgnoreDisturbances::Yes.code(), 1);
    assert_eq!(IgnoreDisturbances::No.code(), 0);
}

#[test]
fn builders_set_one_option_each() {
    let p = ListeningParameters::default();
    assert!(p.sensor_placing.is_none());
    assert!(p.minimum_lightning_threshold.is_none());
    assert!(p.noise_floor_threshold.is_none());
    assert!(p.signal_verification_threshold.is_none());
    assert!(p.ignore_disturbances.is_none());
    let p = p
        .with_sensor_placing(SensorPlacing::Outdoor)
        .with_minimum_lightning_threshold(MinimumLightningThreshold::Nine)
        .with_noise_floor_threshold(NoiseFloorThreshold::new(3).unwrap())
        .with_signal_verification_threshold(SignalVerificationThreshold::new(5).unwrap())
        .with_ignore_disturbances(IgnoreDisturbances::Yes);
    assert_eq!(p.sensor_placing, Some(SensorPlacing::Outdoor));
    assert_eq!(p.minimum_lightning_threshold, Some(MinimumLightningThreshold::Nine));
    assert_eq!(p.noise_floor_threshold.unwrap().code(), 3);
    assert_eq!(p.signal_verification_threshold.unwrap().code(), 5);
    assert_eq!(p.ignore_disturbances, Some(IgnoreDisturbances::Yes));
}

#[test]
fn i2c_addresses() {
    assert_eq!(I2cAddress::default().value(), DEFAULT_I2C_ADDRESS as u16);
    assert_eq!(I2cAddress::new(0x03).value(), 3);
    assert_eq!(I2cAddress::new(127).value(), 127);
}
