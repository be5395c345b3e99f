//! Decoding of the chip's interrupt and distance registers, and what the
//! interrupt handler does for each cause.
use vstd::prelude::*;

use rppal::i2c::Error as I2cBusError;

use crate::interface::i2c::{read_result, I2cInterface, Transfer};
use crate::registers::Register;
use crate::Error;

verus! {

/// Wait after a rising edge on the interrupt pin before the interrupt
/// register holds the cause, in milliseconds.
pub const IRQ_TRIGGER_TO_READY_DELAY_MS: u64 = 2;

/// Wait after a lightning interrupt before the distance register holds the
/// new estimate, in milliseconds.
pub const LIGHTNING_CALCULATION_DELAY_MS: u64 = 2;

/// How long the chip ignores disturbers after it detected one, in
/// milliseconds.
pub const DISTURBER_DEACTIVATION_PERIOD_MS: u64 = 1500;

/// Approximate shortest time between two lightning interrupts, in
/// milliseconds.
pub const APPROXIMATE_MINIMUM_LIGHTNING_INTERVAL_MS: u64 = 1000;

/// Cause of an interrupt, from the low four bits of the interrupt register.
#[derive(Clone, Copy, Debug, PartialEq, Eq, Structural)]
pub enum Irq {
    DistanceEstimationChanged,
    /// INT_NH
    NoiseLevelTooHigh,
    /// INT_D
    DisturberDetected,
    /// INT_L
    Lightning,
}

/// The cause that an interrupt register code stands for, if any.
pub open spec fn irq_of(code: u8) -> Option<Irq> {
    match code {
        0b0000 => Some(Irq::DistanceEstimationChanged),
        0b0001 => Some(Irq::NoiseLevelTooHigh),
        0b0100 => Some(Irq::DisturberDetected),
        0b1000 => Some(Irq::Lightning),
        _ => None,
    }
}

impl Irq {
    /// Decodes an interrupt register value; any other code than the four
    /// known ones is refused.
    pub fn from_code(code: u8) -> (r: Result<Irq, Error>)
        ensures
            match irq_of(code) {
                Some(irq) => r == Ok::<Irq, Error>(irq),
                None => r == Err::<Irq, Error>(Error::UnknownInterruptCode(code)),
            },
    {
        match code {
            0b0000 => Ok(Irq::DistanceEstimationChanged),
            0b0001 => Ok(Irq::NoiseLevelTooHigh),
            0b0100 => Ok(Irq::DisturberDetected),
            0b1000 => Ok(Irq::Lightning),
            _ => Err(Error::UnknownInterruptCode(code)),
        }
    }
}

/// Estimated distance to the head of the storm.
#[derive(Clone, Copy, Debug, PartialEq, Eq, Structural)]
pub enum HeadOfStormDistance {
    /// the storm is within 5-40 km range
    Kilometers(u8),
    /// the storm is out of range (>40 km)
    OutOfRange,
    /// the storm is overhead (<5 km)
    Overhead,
}

/// The distance that a distance register code stands for, if any.
pub open spec fn distance_of(code: u8) -> Option<HeadOfStormDistance> {
    match code {
        0b11_1111 => Some(HeadOfStormDistance::OutOfRange),
        0b10_1000 => Some(HeadOfStormDistance::Kilometers(40)),
        0b10_0101 => Some(HeadOfStormDistance::Kilometers(37)),
        0b10_0010 => Some(HeadOfStormDistance::Kilometers(34)),
        0b01_1111 => Some(HeadOfStormDistance::Kilometers(31)),
        0b01_1011 => Some(HeadOfStormDistance::Kilometers(27)),
        0b01_1000 => Some(HeadOfStormDistance::Kilometers(24)),
        0b01_0100 => Some(HeadOfStormDistance::Kilometers(20)),
        0b01_0001 => Some(HeadOfStormDistance::Kilometers(17)),
        0b00_1110 => Some(HeadOfStormDistance::Kilometers(14)),
        0b00_1100 => Some(HeadOfStormDistance::Kilometers(12)),
        0b00_1010 => Some(HeadOfStormDistance::Kilometers(10)),
        0b00_1000 => Some(HeadOfStormDistance::Kilometers(8)),
        0b00_0110 => Some(HeadOfStormDistance::Kilometers(6)),
        0b00_0101 => Some(HeadOfStormDistance::Kilometers(5)),
        0b00_0001 => Some(HeadOfStormDistance::Overhead),
        _ => None,
    }
}

impl HeadOfStormDistance {
    /// Decodes a distance register value through the datasheet's table; a
    /// code outside the table is refused.
    pub fn from_code(code: u8) -> (r: Result<HeadOfStormDistance, Error>)
        ensures
            match distance_of(code) {
                Some(d) => r == Ok::<HeadOfStormDistance, Error>(d),
                None => r == Err::<HeadOfStormDistance, Error>(Error::UnknownDistanceCode(code)),
            },
    {
        match code {
            0b11_1111 => Ok(HeadOfStormDistance::OutOfRange),
            0b10_1000 => Ok(HeadOfStormDistance::Kilometers(40)),
            0b10_0101 => Ok(HeadOfStormDistance::Kilometers(37)),
            0b10_0010 => Ok(HeadOfStormDistance::Kilometers(34)),
            0b01_1111 => Ok(HeadOfStormDistance::Kilometers(31)),
            0b01_1011 => Ok(HeadOfStormDistance::Kilometers(27)),
            0b01_1000 => Ok(HeadOfStormDistance::Kilometers(24)),
            0b01_0100 => Ok(HeadOfStormDistance::Kilometers(20)),
            0b01_0001 => Ok(HeadOfStormDistance::Kilometers(17)),
            0b00_1110 => Ok(HeadOfStormDistance::Kilometers(14)),
            0b00_1100 => Ok(HeadOfStormDistance::Kilometers(12)),
            0b00_1010 => Ok(HeadOfStormDistance::Kilometers(10)),
            0b00_1000 => Ok(HeadOfStormDistance::Kilometers(8)),
            0b00_0110 => Ok(HeadOfStormDistance::Kilometers(6)),
            0b00_0101 => Ok(HeadOfStormDistance::Kilometers(5)),
            0b00_0001 => Ok(HeadOfStormDistance::Overhead),
            _ => Err(Error::UnknownDistanceCode(code)),
        }
    }
}

/// Decoding a distance is defined on exactly the sixteen codes of the table,
/// and every kilometer value it gives lies in 5 to 40.
pub proof fn lemma_distance_table(code: u8)
    ensures
        distance_of(code) is Some <==> (code == 0b11_1111 || code == 0b10_1000 || code
            == 0b10_0101 || code == 0b10_0010 || code == 0b01_1111 || code == 0b01_1011 || code
            == 0b01_1000 || code == 0b01_0100 || code == 0b01_0001 || code == 0b00_1110 || code
            == 0b00_1100 || code == 0b00_1010 || code == 0b00_1000 || code == 0b00_0110 || code
            == 0b00_0101 || code == 0b00_0001),
        distance_of(code) matches Some(HeadOfStormDistance::Kilometers(km)) ==> 5 <= km <= 40,
{
}

/// An event reported to the listener.
#[derive(Clone, Copy, Debug, PartialEq, Eq, Structural)]
pub enum Event {
    Disturbance,
    Lightning(HeadOfStormDistance),
    Noise,
}

/// What the interrupt handler does next once it knows the cause.
#[derive(Clone, Copy, Debug, PartialEq, Eq, Structural)]
pub enum Reaction {
    /// Nothing to report.
    Ignore,
    /// Report this event.
    Emit(Event),
    /// Wait for the distance estimate, read the distance register and report
    /// the lightning at that distance.
    ReadDistance,
}

pub open spec fn reaction_to(irq: Irq) -> Reaction {
    match irq {
        Irq::DistanceEstimationChanged => Reaction::Ignore,
        Irq::NoiseLevelTooHigh => Reaction::Emit(Event::Noise),
        Irq::DisturberDetected => Reaction::Emit(Event::Disturbance),
        Irq::Lightning => Reaction::ReadDistance,
    }
}

/// The handler's decision for an interrupt register code, or the error for
/// an unknown code.
pub open spec fn reaction_outcome(code: u8) -> Result<Reaction, Error> {
    match irq_of(code) {
        Some(irq) => Ok(reaction_to(irq)),
        None => Err(Error::UnknownInterruptCode(code)),
    }
}

/// The lightning event for a distance register code, or the error for a code
/// outside the table.
pub open spec fn lightning_outcome(code: u8) -> Result<Event, Error> {
    match distance_of(code) {
        Some(d) => Ok(Event::Lightning(d)),
        None => Err(Error::UnknownDistanceCode(code)),
    }
}

/// The handler's decision when the read of the interrupt register was
/// answered `reply`.
pub open spec fn reaction_from_reply(reply: Result<u8, I2cBusError>) -> Result<Reaction, Error> {
    match read_result(Register::Interrupt, reply) {
        Ok(code) => reaction_outcome(code),
        Err(e) => Err(Error::InterfaceError(e)),
    }
}

/// The lightning event when the read of the distance register was answered
/// `reply`.
pub open spec fn lightning_from_reply(reply: Result<u8, I2cBusError>) -> Result<Event, Error> {
    match read_result(Register::DistanceEstimation, reply) {
        Ok(code) => lightning_outcome(code),
        Err(e) => Err(Error::InterfaceError(e)),
    }
}

/// The handler's decision for the interrupt register value `status`.
pub fn react_to_interrupt(status: u8) -> (r: Result<Reaction, Error>)
    ensures
        r == reaction_outcome(status),
{
    let irq = match Irq::from_code(status) {
        Ok(irq) => irq,
        Err(e) => return Err(e),
    };
    let reaction = match irq {
        Irq::DistanceEstimationChanged => Reaction::Ignore,
        Irq::NoiseLevelTooHigh => Reaction::Emit(Event::Noise),
        Irq::DisturberDetected => Reaction::Emit(Event::Disturbance),
        Irq::Lightning => Reaction::ReadDistance,
    };
    Ok(reaction)
}

/// The event for a lightning interrupt, from the distance register value.
pub fn lightning_event(distance_code: u8) -> (r: Result<Event, Error>)
    ensures
        r == lightning_outcome(distance_code),
{
    match HeadOfStormDistance::from_code(distance_code) {
        Ok(distance) => Ok(Event::Lightning(distance)),
        Err(e) => Err(e),
    }
}

/// Reads the interrupt register in one transaction and decides what the
/// handler does next: the decision for the cause that the register's low
/// four bits give, or the bus failure.
pub fn read_reaction(interface: &mut I2cInterface) -> (r: Result<Reaction, Error>)
    ensures
        exists|reply: Result<u8, I2cBusError>|
            #[trigger] reaction_from_reply(reply) == r && final(interface).transfers() == old(
                interface,
            ).transfers().push(Transfer::WriteRead { address: Register::Interrupt.spec_address(), reply }),
{
    let status = interface.read(Register::Interrupt);
    let ghost reply = choose|reply: Result<u8, I2cBusError>|
        #[trigger] read_result(Register::Interrupt, reply) == status && interface.transfers()
            == old(interface).transfers().push(
            Transfer::WriteRead { address: Register::Interrupt.spec_address(), reply },
        );
    let r = match status {
        Ok(status) => react_to_interrupt(status),
        Err(e) => Err(Error::InterfaceError(e)),
    };
    assert(reaction_from_reply(reply) == r);
    r
}

/// Reads the distance register in one transaction and gives the lightning
/// event at the distance that its low six bits encode, or the bus failure.
pub fn read_lightning_event(interface: &mut I2cInterface) -> (r: Result<Event, Error>)
    ensures
        exists|reply: Result<u8, I2cBusError>|
            #[trigger] lightning_from_reply(reply) == r && final(interface).transfers() == old(
                interface,
            ).transfers().push(
                Transfer::WriteRead { address: Register::DistanceEstimation.spec_address(), reply },
            ),
{
    let code = interface.read(Register::DistanceEstimation);
    let ghost reply = choose|reply: Result<u8, I2cBusError>|
        #[trigger] read_result(Register::DistanceEstimation, reply) == code
            && interface.transfers() == old(interface).transfers().push(
            Transfer::WriteRead { address: Register::DistanceEstimation.spec_address(), reply },
        );
    let r = match code {
        Ok(code) => lightning_event(code),
        Err(e) => Err(Error::InterfaceError(e)),
    };
    assert(lightning_from_reply(reply) == r);
    r
}

} // verus!
