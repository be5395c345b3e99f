//! The device state machine. `listen` and `terminate` decide, from the
//! current state, whether the transition is allowed and which steps carry
//! it out; whoever owns the bus and the interrupt pin performs the steps in
//! order and then reports success, which moves the state.
use vstd::prelude::*;

use crate::parameters::ListeningParameters;
use crate::parameters::MAX_SIGNAL_VERIFICATION_THRESHOLD;
use crate::registers::{lemma_field_max_values, Register};
use crate::Error;

verus! {

/// Wait after a power-up or a calibration write, in milliseconds.
pub const SETTLE_DELAY_MS: u64 = 2;

/// Wait for the chip's clock generation after the oscillator is shown on the
/// interrupt pin, in milliseconds.
pub const CLOCK_GENERATION_DELAY_MS: u64 = 2;

/// The byte that triggers a direct command register.
pub const DIRECT_COMMAND: u8 = 0x96;

/// The device's state; a controller starts standing by.
#[derive(Clone, Copy, Debug, PartialEq, Eq, Structural)]
pub enum State {
    Listening,
    PoweredDown,
    StandingBy,
}

/// One step of a transition, carried out by the owner of the bus and pin.
#[derive(Clone, Copy, Debug, PartialEq, Eq, Structural)]
pub enum Step {
    /// Set the field of the register to the value (a masked write).
    Write(Register, u8),
    /// Sleep for this many milliseconds, without holding the bus.
    Delay(u64),
    /// Arm the interrupt pin for rising edges with the event handler.
    ArmInterrupt,
    /// Disarm the interrupt pin.
    DisarmInterrupt,
}

pub open spec fn power_up_steps() -> Seq<Step> {
    seq![Step::Write(Register::PowerDown, 0), Step::Delay(SETTLE_DELAY_MS)]
}

pub open spec fn calibrate_clock_steps() -> Seq<Step> {
    seq![
        Step::Write(Register::CalibrateOscillators, DIRECT_COMMAND),
        Step::Delay(SETTLE_DELAY_MS),
        Step::Write(Register::DisplayTrcoOnIrqPin, 1),
        Step::Delay(CLOCK_GENERATION_DELAY_MS),
        Step::Write(Register::DisplayTrcoOnIrqPin, 0),
        Step::Delay(SETTLE_DELAY_MS),
    ]
}

pub open spec fn configure_defaults_steps() -> Seq<Step> {
    seq![Step::Write(Register::PresetDefault, DIRECT_COMMAND)]
}

pub open spec fn sensor_placing_steps(p: ListeningParameters) -> Seq<Step> {
    match p.sensor_placing {
        Some(s) => seq![Step::Write(Register::AfeGainBoost, s.spec_code())],
        None => Seq::empty(),
    }
}

pub open spec fn minimum_lightning_threshold_steps(p: ListeningParameters) -> Seq<Step> {
    match p.minimum_lightning_threshold {
        Some(t) => seq![Step::Write(Register::MinimumNumberOfLightning, t.spec_code())],
        None => Seq::empty(),
    }
}

pub open spec fn noise_floor_threshold_steps(p: ListeningParameters) -> Seq<Step> {
    match p.noise_floor_threshold {
        Some(t) => seq![Step::Write(Register::NoiseFloorLevel, t.spec_value())],
        None => Seq::empty(),
    }
}

pub open spec fn signal_verification_threshold_steps(p: ListeningParameters) -> Seq<Step> {
    match p.signal_verification_threshold {
        Some(t) => seq![Step::Write(Register::WatchdogThreshold, t.spec_value())],
        None => Seq::empty(),
    }
}

pub open spec fn ignore_disturbances_steps(p: ListeningParameters) -> Seq<Step> {
    match p.ignore_disturbances {
        Some(i) => seq![Step::Write(Register::MaskDisturber, i.spec_code())],
        None => Seq::empty(),
    }
}

/// One write per option that is present, in the order of the fields.
pub open spec fn parameter_steps(p: ListeningParameters) -> Seq<Step> {
    sensor_placing_steps(p) + minimum_lightning_threshold_steps(p) + noise_floor_threshold_steps(p)
        + signal_verification_threshold_steps(p) + ignore_disturbances_steps(p)
}

/// The whole listen sequence: power up, calibrate the clock, load the
/// defaults, apply the parameters, arm the interrupt pin.
pub open spec fn listen_steps(p: ListeningParameters) -> Seq<Step> {
    power_up_steps() + calibrate_clock_steps() + configure_defaults_steps() + parameter_steps(p)
        + seq![Step::ArmInterrupt]
}

pub open spec fn terminate_steps() -> Seq<Step> {
    seq![Step::DisarmInterrupt, Step::Write(Register::PowerDown, 1)]
}

/// What `listen` answers in `state`.
pub open spec fn listen_outcome(state: State, p: ListeningParameters) -> Result<Seq<Step>, Error> {
    if state == State::Listening {
        Err(Error::InvalidState)
    } else {
        Ok(listen_steps(p))
    }
}

/// What `terminate` answers in `state`.
pub open spec fn terminate_outcome(state: State) -> Result<Seq<Step>, Error> {
    if state == State::Listening {
        Ok(terminate_steps())
    } else {
        Err(Error::InvalidState)
    }
}

/// `r` carries the plan that `outcome` gives, or the same error.
pub open spec fn plan_matches(r: Result<Vec<Step>, Error>, outcome: Result<Seq<Step>, Error>) -> bool {
    match outcome {
        Ok(s) => r matches Ok(v) && v@ == s,
        Err(e) => r == Err::<Vec<Step>, Error>(e),
    }
}

/// Listening is allowed from standing by and from powered down, and then
/// gives the full listen sequence; while listening, `listen` is refused with
/// an invalid-state error and gives no step, so nothing reaches the bus.
pub proof fn lemma_listen_guard(p: ListeningParameters)
    ensures
        listen_outcome(State::StandingBy, p) == Ok::<Seq<Step>, Error>(listen_steps(p)),
        listen_outcome(State::PoweredDown, p) == Ok::<Seq<Step>, Error>(listen_steps(p)),
        listen_outcome(State::Listening, p) == Err::<Seq<Step>, Error>(Error::InvalidState),
{
}

/// `terminate` is allowed only while listening, where it disarms the pin and
/// then writes 1 to the power-down field; in any other state it is refused
/// with an invalid-state error and gives no step.
pub proof fn lemma_terminate_guard(state: State)
    ensures
        state == State::Listening ==> terminate_outcome(state) == Ok::<Seq<Step>, Error>(
            seq![Step::DisarmInterrupt, Step::Write(Register::PowerDown, 1)],
        ),
        state != State::Listening ==> terminate_outcome(state) == Err::<Seq<Step>, Error>(
            Error::InvalidState,
        ),
{
}

/// The listen sequence with no option set: the power-down field to 0, the
/// oscillator calibration command, the oscillator shown on the interrupt pin
/// and hidden again, the preset-default command, with the settle delays in
/// between, and at last the arming of the interrupt pin.
pub proof fn lemma_default_listen_sequence(p: ListeningParameters)
    requires
        p.sensor_placing is None,
        p.minimum_lightning_threshold is None,
        p.noise_floor_threshold is None,
        p.signal_verification_threshold is None,
        p.ignore_disturbances is None,
    ensures
        listen_steps(p) == seq![
            Step::Write(Register::PowerDown, 0),
            Step::Delay(SETTLE_DELAY_MS),
            Step::Write(Register::CalibrateOscillators, DIRECT_COMMAND),
            Step::Delay(SETTLE_DELAY_MS),
            Step::Write(Register::DisplayTrcoOnIrqPin, 1),
            Step::Delay(CLOCK_GENERATION_DELAY_MS),
            Step::Write(Register::DisplayTrcoOnIrqPin, 0),
            Step::Delay(SETTLE_DELAY_MS),
            Step::Write(Register::PresetDefault, DIRECT_COMMAND),
            Step::ArmInterrupt,
        ],
{
    assert(parameter_steps(p) =~= Seq::<Step>::empty());
    assert(listen_steps(p) =~= seq![
        Step::Write(Register::PowerDown, 0),
        Step::Delay(SETTLE_DELAY_MS),
        Step::Write(Register::CalibrateOscillators, DIRECT_COMMAND),
        Step::Delay(SETTLE_DELAY_MS),
        Step::Write(Register::DisplayTrcoOnIrqPin, 1),
        Step::Delay(CLOCK_GENERATION_DELAY_MS),
        Step::Write(Register::DisplayTrcoOnIrqPin, 0),
        Step::Delay(SETTLE_DELAY_MS),
        Step::Write(Register::PresetDefault, DIRECT_COMMAND),
        Step::ArmInterrupt,
    ]);
}

/// A write step hands its field a value that fits; other steps always pass.
pub open spec fn step_fits(step: Step) -> bool {
    match step {
        Step::Write(register, value) => value <= register.spec_max(),
        _ => true,
    }
}

pub open spec fn steps_fit(steps: Seq<Step>) -> bool {
    forall|i: int| 0 <= i < steps.len() ==> #[trigger] step_fits(steps[i])
}

proof fn lemma_steps_fit_concat(a: Seq<Step>, b: Seq<Step>)
    requires
        steps_fit(a),
        steps_fit(b),
    ensures
        steps_fit(a + b),
{
    assert forall|i: int| 0 <= i < (a + b).len() implies #[trigger] step_fits((a + b)[i]) by {
        if i < a.len() {
            assert((a + b)[i] == a[i]);
        } else {
            assert((a + b)[i] == b[i - a.len()]);
        }
    }
}

/// Every write of the listen sequence fits its field whenever the noise
/// floor threshold, if given, fits the three-bit noise floor field: then the
/// sequence meets no out-of-range refusal. (A noise floor threshold of 8 to
/// 11 is refused by the write.)
pub proof fn lemma_listen_writes_fit(p: ListeningParameters)
    requires
        p.noise_floor_threshold matches Some(t) ==> t.spec_value() <= 7,
        p.signal_verification_threshold matches Some(t) ==> t.spec_value()
            <= MAX_SIGNAL_VERIFICATION_THRESHOLD,
    ensures
        steps_fit(listen_steps(p)),
{
    lemma_field_max_values(Register::PowerDown);
    lemma_field_max_values(Register::CalibrateOscillators);
    lemma_field_max_values(Register::DisplayTrcoOnIrqPin);
    lemma_field_max_values(Register::PresetDefault);
    lemma_field_max_values(Register::AfeGainBoost);
    lemma_field_max_values(Register::MinimumNumberOfLightning);
    lemma_field_max_values(Register::NoiseFloorLevel);
    lemma_field_max_values(Register::WatchdogThreshold);
    lemma_field_max_values(Register::MaskDisturber);
    assert(steps_fit(power_up_steps()));
    assert(steps_fit(calibrate_clock_steps()));
    assert(steps_fit(configure_defaults_steps()));
    assert(steps_fit(sensor_placing_steps(p)));
    assert(steps_fit(minimum_lightning_threshold_steps(p)));
    assert(steps_fit(noise_floor_threshold_steps(p)));
    assert(steps_fit(signal_verification_threshold_steps(p)));
    assert(steps_fit(ignore_disturbances_steps(p)));
    assert(steps_fit(seq![Step::ArmInterrupt]));
    lemma_steps_fit_concat(sensor_placing_steps(p), minimum_lightning_threshold_steps(p));
    let a = sensor_placing_steps(p) + minimum_lightning_threshold_steps(p);
    lemma_steps_fit_concat(a, noise_floor_threshold_steps(p));
    let b = a + noise_floor_threshold_steps(p);
    lemma_steps_fit_concat(b, signal_verification_threshold_steps(p));
    let c = b + signal_verification_threshold_steps(p);
    lemma_steps_fit_concat(c, ignore_disturbances_steps(p));
    lemma_steps_fit_concat(power_up_steps(), calibrate_clock_steps());
    let d = power_up_steps() + calibrate_clock_steps();
    lemma_steps_fit_concat(d, configure_defaults_steps());
    let e = d + configure_defaults_steps();
    lemma_steps_fit_concat(e, parameter_steps(p));
    lemma_steps_fit_concat(e + parameter_steps(p), seq![Step::ArmInterrupt]);
}

fn power_up(steps: &mut Vec<Step>)
    ensures
        final(steps)@ == old(steps)@ + power_up_steps(),
{
    steps.push(Step::Write(Register::PowerDown, 0));
    steps.push(Step::Delay(SETTLE_DELAY_MS));
    assert(steps@ =~= old(steps)@ + power_up_steps());
}

fn power_down(steps: &mut Vec<Step>)
    ensures
        final(steps)@ == old(steps)@.push(Step::Write(Register::PowerDown, 1)),
{
    steps.push(Step::Write(Register::PowerDown, 1));
}

fn calibrate_clock(steps: &mut Vec<Step>)
    ensures
        final(steps)@ == old(steps)@ + calibrate_clock_steps(),
{
    steps.push(Step::Write(Register::CalibrateOscillators, DIRECT_COMMAND));
    steps.push(Step::Delay(SETTLE_DELAY_MS));
    steps.push(Step::Write(Register::DisplayTrcoOnIrqPin, 1));
    steps.push(Step::Delay(CLOCK_GENERATION_DELAY_MS));
    steps.push(Step::Write(Register::DisplayTrcoOnIrqPin, 0));
    steps.push(Step::Delay(SETTLE_DELAY_MS));
    assert(steps@ =~= old(steps)@ + calibrate_clock_steps());
}

fn configure_defaults(steps: &mut Vec<Step>)
    ensures
        final(steps)@ == old(steps)@ + configure_defaults_steps(),
{
    steps.push(Step::Write(Register::PresetDefault, DIRECT_COMMAND));
    assert(steps@ =~= old(steps)@ + configure_defaults_steps());
}

fn configure_sensor_placing(steps: &mut Vec<Step>, parameters: &ListeningParameters)
    ensures
        final(steps)@ == old(steps)@ + sensor_placing_steps(*parameters),
{
    if let Some(placing) = parameters.sensor_placing {
        steps.push(Step::Write(Register::AfeGainBoost, placing.code()));
    }
    assert(steps@ =~= old(steps)@ + sensor_placing_steps(*parameters));
}

fn configure_minimum_lightning_threshold(steps: &mut Vec<Step>, parameters: &ListeningParameters)
    ensures
        final(steps)@ == old(steps)@ + minimum_lightning_threshold_steps(*parameters),
{
    if let Some(threshold) = parameters.minimum_lightning_threshold {
        steps.push(Step::Write(Register::MinimumNumberOfLightning, threshold.code()));
    }
    assert(steps@ =~= old(steps)@ + minimum_lightning_threshold_steps(*parameters));
}

fn configure_noise_floor_threshold(steps: &mut Vec<Step>, parameters: &ListeningParameters)
    ensures
        final(steps)@ == old(steps)@ + noise_floor_threshold_steps(*parameters),
{
    if let Some(threshold) = parameters.noise_floor_threshold {
        steps.push(Step::Write(Register::NoiseFloorLevel, threshold.code()));
    }
    assert(steps@ =~= old(steps)@ + noise_floor_threshold_steps(*parameters));
}

fn configure_signal_verification_threshold(
    steps: &mut Vec<Step>,
    parameters: &ListeningParameters,
)
    ensures
        final(steps)@ == old(steps)@ + signal_verification_threshold_steps(*parameters),
{
    if let Some(threshold) = parameters.signal_verification_threshold {
        steps.push(Step::Write(Register::WatchdogThreshold, threshold.code()));
    }
    assert(steps@ =~= old(steps)@ + signal_verification_threshold_steps(*parameters));
}

fn configure_ignore_disturbances(steps: &mut Vec<Step>, parameters: &ListeningParameters)
    ensures
        final(steps)@ == old(steps)@ + ignore_disturbances_steps(*parameters),
{
    if let Some(ignore) = parameters.ignore_disturbances {
        steps.push(Step::Write(Register::MaskDisturber, ignore.code()));
    }
    assert(steps@ =~= old(steps)@ + ignore_disturbances_steps(*parameters));
}

fn configure_listen_parameters(steps: &mut Vec<Step>, parameters: &ListeningParameters)
    ensures
        final(steps)@ == old(steps)@ + parameter_steps(*parameters),
{
    let ghost p = *parameters;
    configure_sensor_placing(steps, parameters);
    configure_minimum_lightning_threshold(steps, parameters);
    configure_noise_floor_threshold(steps, parameters);
    configure_signal_verification_threshold(steps, parameters);
    configure_ignore_disturbances(steps, parameters);
    assert(steps@ =~= old(steps)@ + parameter_steps(p));
}

/// The decision core of the sensor driver: its state and the transitions
/// between them.
pub struct Controller {
    state: State,
}

impl Controller {
    pub closed spec fn spec_state(&self) -> State {
        self.state
    }

    /// A controller standing by, as the chip is after power-on.
    pub fn new() -> (r: Self)
        ensures
            r.spec_state() == State::StandingBy,
    {
        Controller { state: State::StandingBy }
    }

    pub fn state(&self) -> (r: State)
        ensures
            r == self.spec_state(),
    {
        self.state
    }

    pub fn is_listening(&self) -> (r: bool)
        ensures
            r == (self.spec_state() == State::Listening),
    {
        self.state == State::Listening
    }

    /// Checks that the controller is in one of `valid_states`.
    fn assert_state(&self, valid_states: &[State]) -> (r: Result<(), Error>)
        ensures
            r is Ok <==> valid_states@.contains(self.spec_state()),
            r is Err ==> r == Err::<(), Error>(Error::InvalidState),
    {
        let mut i: usize = 0;
        while i < valid_states.len()
            invariant
                i <= valid_states@.len(),
                forall|j: int| 0 <= j < i ==> valid_states@[j] != self.state,
            decreases valid_states@.len() - i,
        {
            if valid_states[i] == self.state {
                return Ok(());
            }
            i = i + 1;
        }
        Err(Error::InvalidState)
    }

    /// Starts listening with `parameters`: allowed while standing by or
    /// powered down. Gives the steps to perform, in order; the state moves
    /// only through `listening_started` once they all succeeded.
    pub fn listen(&self, parameters: &ListeningParameters) -> (r: Result<Vec<Step>, Error>)
        ensures
            plan_matches(r, listen_outcome(self.spec_state(), *parameters)),
    {
        match self.assert_state(&[State::StandingBy, State::PoweredDown]) {
            Ok(()) => {},
            Err(e) => {
                assert(self.spec_state() == State::Listening) by {
                    let valid = seq![State::StandingBy, State::PoweredDown];
                    if self.spec_state() != State::Listening {
                        assert(valid[0] == State::StandingBy && valid[1] == State::PoweredDown);
                    }
                }
                return Err(e);
            },
        }
        let mut steps: Vec<Step> = Vec::new();
        power_up(&mut steps);
        calibrate_clock(&mut steps);
        configure_defaults(&mut steps);
        configure_listen_parameters(&mut steps, parameters);
        steps.push(Step::ArmInterrupt);
        assert(steps@ =~= listen_steps(*parameters));
        Ok(steps)
    }

    /// Records that the steps of `listen` were all carried out.
    pub fn listening_started(&mut self)
        requires
            old(self).spec_state() != State::Listening,
        ensures
            final(self).spec_state() == State::Listening,
    {
        self.state = State::Listening;
    }

    /// Stops listening: allowed only while listening. Gives the steps to
    /// perform: disarm the interrupt pin, then power the chip down. An
    /// interrupt handler already running when the pin is disarmed may still
    /// finish and report its event.
    pub fn terminate(&self) -> (r: Result<Vec<Step>, Error>)
        ensures
            plan_matches(r, terminate_outcome(self.spec_state())),
    {
        match self.assert_state(&[State::Listening]) {
            Ok(()) => {},
            Err(e) => return Err(e),
        }
        let mut steps: Vec<Step> = Vec::new();
        steps.push(Step::DisarmInterrupt);
        power_down(&mut steps);
        assert(steps@ =~= terminate_steps());
        Ok(steps)
    }

    /// Records that the steps of `terminate` were all carried out.
    pub fn terminated(&mut self)
        requires
            old(self).spec_state() == State::Listening,
        ensures
            final(self).spec_state() == State::PoweredDown,
    {
        self.state = State::PoweredDown;
    }
}

} // verus!
