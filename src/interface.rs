//! Masked access to register fields over the chip's byte bus.
use vstd::prelude::*;

use rppal::i2c::Error as I2cBusError;
use rppal::spi::Error as SpiBusError;

use crate::registers::Register;

pub mod i2c;

verus! {

#[verifier::external_type_specification]
#[verifier::external_body]
pub struct ExI2cBusError(I2cBusError);

#[verifier::external_type_specification]
#[verifier::external_body]
pub struct ExSpiBusError(SpiBusError);

/// Failures of a register access.
#[derive(Debug)]
pub enum Error {
    /// The SPI transport reported a failure.
    Spi(SpiBusError),
    /// The I2C transport reported a failure.
    I2c(I2cBusError),
    /// The value does not fit the register field; nothing was sent.
    ValueOutOfRange { register: Register, value: u8 },
}

} // verus!
