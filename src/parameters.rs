//! Validated configuration values for listening, and the register codes they
//! stand for.
use vstd::prelude::*;

verus! {

/// Where the sensor is mounted; selects the analog front end's gain.
#[derive(Clone, Copy, Debug, PartialEq, Eq, Structural)]
pub enum SensorPlacing {
    Indoor,
    Outdoor,
}

impl SensorPlacing {
    pub open spec fn spec_code(self) -> u8 {
        match self {
            SensorPlacing::Indoor => 0b1_0010,
            SensorPlacing::Outdoor => 0b0_1110,
        }
    }

    /// The gain-boost field value for this placement.
    pub fn code(&self) -> (r: u8)
        ensures
            r == self.spec_code(),
    {
        match self {
            SensorPlacing::Indoor => 0b1_0010,
            SensorPlacing::Outdoor => 0b0_1110,
        }
    }
}

/// Number of lightning strikes within 15 minutes before the chip raises a
/// lightning interrupt.
#[derive(Clone, Copy, Debug, PartialEq, Eq, Structural)]
pub enum MinimumLightningThreshold {
    One,
    Five,
    Nine,
    Sixteen,
}

impl MinimumLightningThreshold {
    pub open spec fn spec_code(self) -> u8 {
        match self {
            MinimumLightningThreshold::One => 0b00,
            MinimumLightningThreshold::Five => 0b01,
            MinimumLightningThreshold::Nine => 0b10,
            MinimumLightningThreshold::Sixteen => 0b11,
        }
    }

    /// The two-bit field value for this threshold.
    pub fn code(&self) -> (r: u8)
        ensures
            r == self.spec_code(),
    {
        match self {
            MinimumLightningThreshold::One => 0b00,
            MinimumLightningThreshold::Five => 0b01,
            MinimumLightningThreshold::Nine => 0b10,
            MinimumLightningThreshold::Sixteen => 0b11,
        }
    }
}

/// The largest signal verification threshold.
pub const MAX_SIGNAL_VERIFICATION_THRESHOLD: u8 = 10;

/// The largest noise floor threshold.
pub const MAX_NOISE_FLOOR_THRESHOLD: u8 = 11;

/// Larger values correspond to more robust disturber rejection, with a
/// decrease of the detection efficiency (datasheet, Figure 20). The chip
/// starts with 2.
#[derive(Clone, Copy, Debug, PartialEq, Eq)]
pub struct SignalVerificationThreshold(u8);

impl SignalVerificationThreshold {
    #[verifier::type_invariant]
    spec fn in_range(self) -> bool {
        self.0 <= MAX_SIGNAL_VERIFICATION_THRESHOLD
    }

    pub closed spec fn spec_value(self) -> u8 {
        self.0
    }

    /// A threshold of `value`, which must lie in 0 to 10.
    pub fn new(value: u8) -> (r: Result<Self, &'static str>)
        ensures
            r is Ok <==> value <= MAX_SIGNAL_VERIFICATION_THRESHOLD,
            r matches Ok(t) ==> t.spec_value() == value,
    {
        if value > MAX_SIGNAL_VERIFICATION_THRESHOLD {
            return Err("Signal verification threshold must be in range 0-10");
        }
        Ok(Self(value))
    }

    /// The watchdog-threshold field value.
    pub fn code(&self) -> (r: u8)
        ensures
            r == self.spec_value(),
            r <= MAX_SIGNAL_VERIFICATION_THRESHOLD,
    {
        proof {
            use_type_invariant(self);
        }
        self.0
    }
}

/// Noise floor level threshold, 0 to 11.
#[derive(Clone, Copy, Debug, PartialEq, Eq)]
pub struct NoiseFloorThreshold(u8);

impl NoiseFloorThreshold {
    #[verifier::type_invariant]
    spec fn in_range(self) -> bool {
        self.0 <= MAX_NOISE_FLOOR_THRESHOLD
    }

    pub closed spec fn spec_value(self) -> u8 {
        self.0
    }

    /// A threshold of `value`, which must lie in 0 to 11.
    pub fn new(value: u8) -> (r: Result<Self, &'static str>)
        ensures
            r is Ok <==> value <= MAX_NOISE_FLOOR_THRESHOLD,
            r matches Ok(t) ==> t.spec_value() == value,
    {
        if value > MAX_NOISE_FLOOR_THRESHOLD {
            return Err("Noise level threshold must be in range 0-11");
        }
        Ok(Self(value))
    }

    /// The noise-floor-level field value.
    pub fn code(&self) -> (r: u8)
        ensures
            r == self.spec_value(),
            r <= MAX_NOISE_FLOOR_THRESHOLD,
    {
        proof {
            use_type_invariant(self);
        }
        self.0
    }
}

/// Whether the chip masks disturber interrupts.
#[derive(Clone, Copy, Debug, PartialEq, Eq, Structural)]
pub enum IgnoreDisturbances {
    Yes,
    No,
}

impl IgnoreDisturbances {
    pub open spec fn spec_code(self) -> u8 {
        match self {
            IgnoreDisturbances::Yes => 1,
            IgnoreDisturbances::No => 0,
        }
    }

    /// The mask-disturber field value.
    pub fn code(&self) -> (r: u8)
        ensures
            r == self.spec_code(),
    {
        match self {
            IgnoreDisturbances::Yes => 1,
            IgnoreDisturbances::No => 0,
        }
    }
}

/// The settings applied when listening starts. Each option left `None`
/// keeps the chip's default.
#[derive(Clone, Copy, Debug)]
pub struct ListeningParameters {
    pub sensor_placing: Option<SensorPlacing>,
    pub minimum_lightning_threshold: Option<MinimumLightningThreshold>,
    pub noise_floor_threshold: Option<NoiseFloorThreshold>,
    pub signal_verification_threshold: Option<SignalVerificationThreshold>,
    pub ignore_disturbances: Option<IgnoreDisturbances>,
}

impl Default for ListeningParameters {
    fn default() -> (r: Self)
        ensures
            r.sensor_placing is None,
            r.minimum_lightning_threshold is None,
            r.noise_floor_threshold is None,
            r.signal_verification_threshold is None,
            r.ignore_disturbances is None,
    {
        ListeningParameters {
            sensor_placing: None,
            minimum_lightning_threshold: None,
            noise_floor_threshold: None,
            signal_verification_threshold: None,
            ignore_disturbances: None,
        }
    }
}

impl ListeningParameters {
    pub fn with_sensor_placing(self, sensor_placing: SensorPlacing) -> (r: Self)
        ensures
            r == (ListeningParameters { sensor_placing: Some(sensor_placing), ..self }),
    {
        ListeningParameters { sensor_placing: Some(sensor_placing), ..self }
    }

    pub fn with_minimum_lightning_threshold(
        self,
        minimum_lightning_threshold: MinimumLightningThreshold,
    ) -> (r: Self)
        ensures
            r == (ListeningParameters {
                minimum_lightning_threshold: Some(minimum_lightning_threshold),
                ..self
            }),
    {
        ListeningParameters {
            minimum_lightning_threshold: Some(minimum_lightning_threshold),
            ..self
        }
    }

    pub fn with_noise_floor_threshold(self, noise_floor_threshold: NoiseFloorThreshold) -> (r:
        Self)
        ensures
            r == (ListeningParameters { noise_floor_threshold: Some(noise_floor_threshold), ..self }),
    {
        ListeningParameters { noise_floor_threshold: Some(noise_floor_threshold), ..self }
    }

    pub fn with_signal_verification_threshold(
        self,
        signal_verification_threshold: SignalVerificationThreshold,
    ) -> (r: Self)
        ensures
            r == (ListeningParameters {
                signal_verification_threshold: Some(signal_verification_threshold),
                ..self
            }),
    {
        ListeningParameters {
            signal_verification_threshold: Some(signal_verification_threshold),
            ..self
        }
    }

    pub fn with_ignore_disturbances(self, ignore_disturbances: IgnoreDisturbances) -> (r: Self)
        ensures
            r == (ListeningParameters { ignore_disturbances: Some(ignore_disturbances), ..self }),
    {
        ListeningParameters { ignore_disturbances: Some(ignore_disturbances), ..self }
    }
}

} // verus!
