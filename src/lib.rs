//! Driver core for the AS3935 lightning sensor: register access, the device
//! state machine and the decoding of interrupts into events.
use vstd::prelude::*;

pub mod controller;
pub mod events;
pub mod interface;
pub mod parameters;
pub mod registers;

pub use crate::controller::{Controller, State, Step};
pub use crate::events::{Event, HeadOfStormDistance, Irq, Reaction};
pub use crate::parameters::{
    IgnoreDisturbances, ListeningParameters, MinimumLightningThreshold, NoiseFloorThreshold,
    SensorPlacing, SignalVerificationThreshold,
};

verus! {

/// Failures of the driver.
#[derive(Debug)]
pub enum Error {
    /// Reserved for a detected lock-order violation; nothing reports it yet.
    Deadlock,
    /// A register access failed.
    InterfaceError(interface::Error),
    /// The operation is not allowed in the controller's current state.
    InvalidState,
    /// The interrupt register held a code outside the four known causes.
    UnknownInterruptCode(u8),
    /// The distance register held a code outside the distance table.
    UnknownDistanceCode(u8),
}

impl From<interface::Error> for Error {
    fn from(error: interface::Error) -> (r: Self)
        ensures
            r == Error::InterfaceError(error),
    {
        Error::InterfaceError(error)
    }
}

impl vstd::std_specs::convert::FromSpecImpl<interface::Error> for Error {
    open spec fn obeys_from_spec() -> bool {
        true
    }

    open spec fn from_spec(error: interface::Error) -> Self {
        Error::InterfaceError(error)
    }
}

} // verus!
