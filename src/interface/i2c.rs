//! The register interface over an I2C bus.
use vstd::prelude::*;

use rppal::i2c::Error as I2cBusError;
use rppal::i2c::I2c;

use crate::interface::Error;
use crate::registers::{
    calculate_bitshift, extract_field, insert_field, lemma_catalog_masks, lemma_write_then_read,
    Mode, Register,
};

verus! {

/// The address that the chip answers on when its address pins are left as
/// shipped.
pub const DEFAULT_I2C_ADDRESS: u8 = 0x03;

/// A 7-bit I2C device address.
#[derive(Clone, Copy, Debug, PartialEq, Eq)]
pub struct I2cAddress(u8);

impl I2cAddress {
    #[verifier::type_invariant]
    spec fn fits_seven_bits(self) -> bool {
        self.0 <= 127
    }

    pub closed spec fn spec_value(self) -> u8 {
        self.0
    }

    pub fn new(address: u8) -> (r: Self)
        requires
            address <= 127,
        ensures
            r.spec_value() == address,
    {
        Self(address)
    }

    pub fn default() -> (r: Self)
        ensures
            r.spec_value() == DEFAULT_I2C_ADDRESS,
    {
        Self::new(DEFAULT_I2C_ADDRESS)
    }

    /// The address in the width that the bus takes.
    pub fn value(&self) -> (r: u16)
        ensures
            r == self.spec_value() as u16,
            r <= 127,
    {
        proof {
            use_type_invariant(self);
        }
        self.0 as u16
    }
}

#[verifier::external_type_specification]
#[verifier::external_body]
pub struct ExI2c(I2c);

/// One bus transaction, with what the bus answered.
pub enum Transfer {
    /// The register address was sent and one byte was asked back.
    WriteRead { address: u8, reply: Result<u8, I2cBusError> },
    /// The register address and one byte were sent.
    Write { address: u8, byte: u8, reply: Result<usize, I2cBusError> },
}

/// Relies on rppal's `I2c::set_slave_address`, which selects the device that
/// later transfers address.
#[verifier::external_body]
fn set_slave_address(i2c: &mut I2c, address: u16) -> (r: Result<(), I2cBusError>) {
    i2c.set_slave_address(address)
}

/// Relies on rppal's `I2c::write_read`: one transaction that sends the byte
/// `address` and then reads one byte back, which it gives on success.
#[verifier::external_body]
fn write_read_byte(interface: &mut I2cInterface, address: u8) -> (r: Result<u8, I2cBusError>)
    ensures
        final(interface).transfers() == old(interface).transfers().push(
            Transfer::WriteRead { address, reply: r },
        ),
{
    let mut data: [u8; 1] = [0];
    match interface.i2c.write_read(&[address], &mut data) {
        Ok(()) => Ok(data[0]),
        Err(e) => Err(e),
    }
}

/// Relies on rppal's `I2c::write`: one transaction that sends the two bytes
/// `address` and `byte`.
#[verifier::external_body]
fn write_two_bytes(interface: &mut I2cInterface, address: u8, byte: u8) -> (r: Result<
    usize,
    I2cBusError,
>)
    ensures
        final(interface).transfers() == old(interface).transfers().push(
            Transfer::Write { address, byte, reply: r },
        ),
{
    interface.i2c.write(&[address, byte])
}

/// The value of the field of `register` within the byte `raw`.
pub fn field_of(raw: u8, register: Register) -> (r: u8)
    ensures
        r == extract_field(raw, register.spec_mask()),
        r <= register.spec_max(),
{
    proof {
        lemma_catalog_masks(register);
    }
    let mask = register.mask();
    let shift = calculate_bitshift(mask);
    proof {
        lemma_field_within_max(raw, mask, shift);
    }
    (raw & mask) >> shift
}

/// The byte `current` with the field of `register` set to `value`: the bits
/// outside the mask are kept, the bits inside it are replaced.
pub fn merge_field(current: u8, register: Register, value: u8) -> (r: u8)
    ensures
        r == insert_field(current, register.spec_mask(), value),
{
    proof {
        lemma_catalog_masks(register);
    }
    let mask = register.mask();
    let shift = calculate_bitshift(mask);
    (current & !mask) | (value << shift)
}

/// What `read` of `register` gives when the bus answered `reply`.
pub open spec fn read_result(register: Register, reply: Result<u8, I2cBusError>) -> Result<
    u8,
    Error,
> {
    match reply {
        Ok(raw) => Ok(extract_field(raw, register.spec_mask())),
        Err(e) => Err(Error::I2c(e)),
    }
}

/// The transactions of a masked write of `value` to `register`, when the
/// read of the current byte was answered `read_reply` and the write, if one
/// was made, `write_reply`. A failed read ends the write.
pub open spec fn write_transfers(
    register: Register,
    value: u8,
    read_reply: Result<u8, I2cBusError>,
    write_reply: Result<usize, I2cBusError>,
) -> Seq<Transfer> {
    match read_reply {
        Ok(current) => seq![
            Transfer::WriteRead { address: register.spec_address(), reply: read_reply },
            Transfer::Write {
                address: register.spec_address(),
                byte: insert_field(current, register.spec_mask(), value),
                reply: write_reply,
            },
        ],
        Err(_) => seq![Transfer::WriteRead { address: register.spec_address(), reply: read_reply }],
    }
}

/// What `write` gives for those replies.
pub open spec fn write_result(
    read_reply: Result<u8, I2cBusError>,
    write_reply: Result<usize, I2cBusError>,
) -> Result<(), Error> {
    match read_reply {
        Ok(_) => match write_reply {
            Ok(_) => Ok(()),
            Err(e) => Err(Error::I2c(e)),
        },
        Err(e) => Err(Error::I2c(e)),
    }
}

/// Register access over I2C. Beside the bus handle it keeps a ghost record
/// of every bus transaction made through it, with the bus's answers; only
/// the calls into the bus add to it.
pub struct I2cInterface {
    i2c: I2c,
    log: Ghost<Seq<Transfer>>,
}

impl I2cInterface {
    /// The transactions made so far, oldest first.
    pub closed spec fn transfers(&self) -> Seq<Transfer> {
        self.log@
    }

    pub fn new(i2c: I2c, i2c_address: I2cAddress) -> (r: Result<Self, Error>)
        ensures
            r matches Ok(s) ==> s.transfers() == Seq::<Transfer>::empty(),
            r matches Err(e) ==> e is I2c,
    {
        let mut i2c = i2c;
        match set_slave_address(&mut i2c, i2c_address.value()) {
            Ok(()) => Ok(Self { i2c, log: Ghost(Seq::empty()) }),
            Err(e) => Err(Error::I2c(e)),
        }
    }

    /// Reads the field of `register` in one transaction: the byte at its
    /// address, masked and shifted down to bit 0. A bus failure is passed on.
    pub fn read(&mut self, register: Register) -> (r: Result<u8, Error>)
        requires
            register.spec_mode() != Mode::Write,
        ensures
            exists|reply: Result<u8, I2cBusError>|
                #[trigger] read_result(register, reply) == r && final(self).transfers() == old(
                    self,
                ).transfers().push(Transfer::WriteRead { address: register.spec_address(), reply }),
            r matches Ok(v) ==> v <= register.spec_max(),
    {
        let address = register.address();
        let reply = write_read_byte(self, address);
        let ghost g = reply;
        let r = match reply {
            Ok(raw) => Ok(field_of(raw, register)),
            Err(e) => Err(Error::I2c(e)),
        };
        assert(read_result(register, g) == r);
        r
    }

    /// Sets the field of `register` to `value` and leaves the other bits of
    /// its byte as they are: reads the byte, replaces the field's bits and
    /// writes the byte back. A value that does not fit the field is refused
    /// before the bus is touched; a bus failure ends the write and is passed
    /// on.
    pub fn write(&mut self, register: Register, value: u8) -> (r: Result<(), Error>)
        ensures
            value > register.spec_max() <==> r == Err::<(), Error>(
                Error::ValueOutOfRange { register, value },
            ),
            value > register.spec_max() ==> final(self).transfers() == old(self).transfers(),
            value <= register.spec_max() ==> exists|
                read_reply: Result<u8, I2cBusError>,
                write_reply: Result<usize, I2cBusError>,
            |
                final(self).transfers() == old(self).transfers() + #[trigger] write_transfers(
                    register,
                    value,
                    read_reply,
                    write_reply,
                ) && r == write_result(read_reply, write_reply),
    {
        proof {
            lemma_catalog_masks(register);
        }
        let mask = register.mask();
        let shift = calculate_bitshift(mask);
        if value > (mask >> shift) {
            return Err(Error::ValueOutOfRange { register, value });
        }
        let address = register.address();
        let read_reply = write_read_byte(self, address);
        let ghost rr = read_reply;
        let current = match read_reply {
            Ok(current) => current,
            Err(e) => {
                let ghost wr: Result<usize, I2cBusError> = Ok(0usize);
                assert(self.log@ =~= old(self).log@ + write_transfers(register, value, rr, wr));
                assert(write_result(rr, wr) == Err::<(), Error>(Error::I2c(e)));
                return Err(Error::I2c(e));
            },
        };
        let byte = merge_field(current, register, value);
        let write_reply = write_two_bytes(self, address, byte);
        let ghost wr = write_reply;
        let r = match write_reply {
            Ok(_) => Ok(()),
            Err(e) => Err(Error::I2c(e)),
        };
        assert(self.log@ =~= old(self).log@ + write_transfers(register, value, rr, wr));
        assert(r == write_result(rr, wr));
        r
    }
}

/// On a bus that keeps what is written: when a write of a value that fits
/// succeeds, the byte it sends holds that value in the field and the other
/// bits of the byte that it read; a later read answered with that byte gives
/// the value back.
pub proof fn lemma_write_then_read_back(
    register: Register,
    value: u8,
    current: u8,
    write_reply: Result<usize, I2cBusError>,
)
    requires
        value <= register.spec_max(),
        write_reply is Ok,
    ensures
        write_result(Ok(current), write_reply) == Ok::<(), Error>(()),
        write_transfers(register, value, Ok(current), write_reply)[1] matches Transfer::Write {
            address,
            byte,
            reply,
        } && address == register.spec_address() && read_result(register, Ok(byte)) == Ok::<
            u8,
            Error,
        >(value) && byte & !register.spec_mask() == current & !register.spec_mask(),
{
    lemma_write_then_read(register, current, value);
}

proof fn lemma_field_within_max(raw: u8, mask: u8, shift: u8)
    by (bit_vector)
    requires
        shift < 8,
    ensures
        (raw & mask) >> shift <= mask >> shift,
{
}

} // verus!
