use as3935::events::{lightning_event, react_to_interrupt};
use as3935::{Error, Event, HeadOfStormDistance, Irq, Reaction};

#[test]
fn lightning_interrupt_then_distance_gives_one_lightning_event() {
    assert_eq!(react_to_interrupt(0b1000).unwrap(), Reaction::ReadDistance);
    assert_eq!(
        lightning_event(0b00_1010).unwrap(),
        Event::Lightning(HeadOfStormDistance::Kilometers(10))
    );
}

#[test]
fn distance_estimation_change_emits_nothing() {
    assert_eq!(react_to_interrupt(0b0000).unwrap(), Reaction::Ignore);
}

#[test]
fn noise_and_disturber_interrupts() {
    assert_eq!(react_to_interrupt(0b0001).unwrap(), Reaction::Emit(Event::Noise));
    assert_eq!(react_to_interrupt(0b0100).unwrap(), Reaction::Emit(Event::Disturbance));
}

#[test]
fn unknown_interrupt_code_is_an_error() {
    assert!(matches!(react_to_interrupt(0b0010), Err(Error::UnknownInterruptCode(2))));
    assert!(matches!(Irq::from_code(0b1111), Err(Error::UnknownInterruptCode(15))));
    assert_eq!(Irq::from_code(0b1000).unwrap(), Irq::Lightning);
}

#[test]
fn distance_table() {
    let table = [
        (0b11_1111, HeadOfStormDistance::OutOfRange),
        (0b10_1000, HeadOfStormDistance::Kilometers(40)),
        (0b10_0101, HeadOfStormDistance::Kilometers(37)),
        (0b10_0010, HeadOfStormDistance::Kilometers(34)),
        (0b01_1111, HeadOfStormDistance::Kilometers(31)),
        (0b01_1011, HeadOfStormDistance::Kilometers(27)),
        (0b01_1000, HeadOfStormDistance::Kilometers(24)),
        (0b01_0100, HeadOfStormDistance::Kilometers(20)),
        (0b01_0001, HeadOfStormDistance::Kilometers(17)),
        (0b00_1110, HeadOfStormDistance::Kilometers(14)),
        (0b00_1100, HeadOfStormDistance::Kilometers(12)),
        (0b00_1010, HeadOfStormDistance::Kilometers(10)),
        (0b00_1000, HeadOfStormDistance::Kilometers(8)),
        (0b00_0110, HeadOfStormDistance::Kilometers(6)),
        (0b00_0101, HeadOfStormDistance::Kilometers(5)),
        (0b00_0001, HeadOfStormDistance::Overhead),
    ];
    for (code, distance) in table {
        assert_eq!(HeadOfStormDistance::from_code(code).unwrap(), distance);
    }
}

#[test]
fn every_other_distance_code_is_refused() {
    let known = [
        0b11_1111, 0b10_1000, 0b10_0101, 0b10_0010, 0b01_1111, 0b01_1011, 0b01_1000, 0b01_0100,
        0b01_0001, 0b00_1110, 0b00_1100, 0b00_1010, 0b00_1000, 0b00_0110, 0b00_0101, 0b00_0001,
    ];
    let mut refused = 0;
    for code in 0u8..64 {
        let decoded = HeadOfStormDistance::from_code(code);
        if known.contains(&code) {
            assert!(decoded.is_ok());
        } else {
            assert!(matches!(decoded, Err(Error::UnknownDistanceCode(c)) if c == code));
            assert!(matches!(lightning_event(code), Err(Error::UnknownDistanceCode(_))));
            refused += 1;
        }
    }
    assert_eq!(refused, 48);
}

#[test]
fn interface_errors_convert_into_driver_errors() {
    let e = as3935::interface::Error::ValueOutOfRange {
        register: as3935::registers::Register::NoiseFloorLevel,
        value: 9,
    };
    assert!(matches!(
        Error::from(e),
        Error::InterfaceError(as3935::interface::Error::ValueOutOfRange { value: 9, .. })
    ));
}
