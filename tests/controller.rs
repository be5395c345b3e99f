use as3935::controller::{CLOCK_GENERATION_DELAY_MS, DIRECT_COMMAND, SETTLE_DELAY_MS};
use as3935::registers::Register;
use as3935::{
    Controller, Error, ListeningParameters, MinimumLightningThreshold, NoiseFloorThreshold,
    SensorPlacing, SignalVerificationThreshold, State, Step,
};

fn writes(steps: &[Step]) -> Vec<(Register, u8)> {
    steps
        .iter()
        .filter_map(|s| match s {
            Step::Write(r, v) => Some((*r, *v)),
            _ => None,
        })
        .collect()
}

#[test]
fn listen_with_defaults_from_standing_by() {
    let mut c = Controller::new();
    assert_eq!(c.state(), State::StandingBy);
    let steps = c.listen(&ListeningParameters::default()).unwrap();
    assert_eq!(
        steps,
        vec![
            Step::Write(Register::PowerDown, 0),
            Step::Delay(SETTLE_DELAY_MS),
            Step::Write(Register::CalibrateOscillators, 0x96),
            Step::Delay(SETTLE_DELAY_MS),
            Step::Write(Register::DisplayTrcoOnIrqPin, 1),
            Step::Delay(CLOCK_GENERATION_DELAY_MS),
            Step::Write(Register::DisplayTrcoOnIrqPin, 0),
            Step::Delay(SETTLE_DELAY_MS),
            Step::Write(Register::PresetDefault, 0x96),
            Step::ArmInterrupt,
        ]
    );
    assert_eq!(
        writes(&steps),
        vec![
            (Register::PowerDown, 0),
            (Register::CalibrateOscillators, 0x96),
            (Register::DisplayTrcoOnIrqPin, 1),
            (Register::DisplayTrcoOnIrqPin, 0),
            (Register::PresetDefault, 0x96),
        ]
    );
    assert_eq!(DIRECT_COMMAND, 0x96);
    assert!(!c.is_listening());
    c.listening_started();
    assert!(c.is_listening());
    assert_eq!(c.state(), State::Listening);
}

#[test]
fn second_listen_is_refused_without_writes() {
    let mut c = Controller::new();
    c.listen(&ListeningParameters::default()).unwrap();
    c.listening_started();
    let again = c.listen(&ListeningParameters::default().with_sensor_placing(SensorPlacing::Indoor));
    assert!(matches!(again, Err(Error::InvalidState)));
    assert!(c.is_listening());
}

#[test]
fn listen_applies_each_present_option_once() {
    let c = Controller::new();
    let p = ListeningParameters::default()
        .with_sensor_placing(SensorPlacing::Outdoor)
        .with_minimum_lightning_threshold(MinimumLightningThreshold::Sixteen)
        .with_noise_floor_threshold(NoiseFloorThreshold::new(4).unwrap())
        .with_signal_verification_threshold(SignalVerificationThreshold::new(5).unwrap());
    let steps = c.listen(&p).unwrap();
    let w = writes(&steps);
    assert_eq!(w.len(), 9);
    assert_eq!(
        w[5..].to_vec(),
        vec![
            (Register::AfeGainBoost, 0b0_1110),
            (Register::MinimumNumberOfLightning, 0b11),
            (Register::NoiseFloorLevel, 4),
            (Register::WatchdogThreshold, 5),
        ]
    );
    assert_eq!(steps.last(), Some(&Step::ArmInterrupt));
}

#[test]
fn terminate_while_listening_powers_down() {
    let mut c = Controller::new();
    c.listen(&ListeningParameters::default()).unwrap();
    c.listening_started();
    let steps = c.terminate().unwrap();
    assert_eq!(
        steps,
        vec![Step::DisarmInterrupt, Step::Write(Register::PowerDown, 1)]
    );
    c.terminated();
    assert_eq!(c.state(), State::PoweredDown);
    assert!(!c.is_listening());
}

#[test]
fn terminate_while_standing_by_is_refused() {
    let c = Controller::new();
    assert!(matches!(c.terminate(), Err(Error::InvalidState)));
    assert_eq!(c.state(), State::StandingBy);
}

#[test]
fn listen_again_after_power_down() {
    let mut c = Controller::new();
    c.listen(&ListeningParameters::default()).unwrap();
    c.listening_started();
    c.terminate().unwrap();
    c.terminated();
    let steps = c.listen(&ListeningParameters::default()).unwrap();
    assert_eq!(steps.len(), 10);
    c.listening_started();
    assert!(c.is_listening());
}
