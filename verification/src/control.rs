//! The control loop as a state machine.
//!
//! The controller decides; its caller acts. Each step takes the outcome of
//! the action that the controller asked for last and returns the next action:
//! read the temperature, evaluate the curve, command the actuator, drain the
//! estimator, report, sleep.

use vstd::prelude::*;
use crate::curve::{
    blended_curve, lemma_curve_bounds, linear_curve, CurveParameters, DutyCycle, Millidegrees,
    DUTY_SCALE,
};
use crate::failure::{pin_failure, pwm_failure, Failure, PinFailure, PwmFailure, ReadFailure};
use crate::sensor::FALLBACK_READING;

verus! {

/// The time between the end of one tick's work and the next tick: 5 s.
pub const PERIOD_MILLIS: u64 = 5_000;

/// The PWM frequency that the fan is driven at, in hertz.
pub const PWM_FREQUENCY_HZ: u32 = 25_000;

/// The PWM channel that drives the fan.
pub const PWM_CHANNEL: u8 = 0;

/// The pin on which the tachometer's falling edges are counted.
pub const TACHOMETER_PIN: u8 = 24;

/// Which curve the controller evaluates.
#[derive(Clone, Copy, Debug, PartialEq, Eq)]
pub enum CurveMode {
    /// The linear ramp alone.
    Linear,
    /// The linear ramp blended with a shaping term that the caller computes.
    Blended,
}

/// What the controller is configured with.
#[derive(Clone, Copy, Debug, PartialEq, Eq)]
pub struct Settings {
    pub curve: CurveParameters,
    pub curve_mode: CurveMode,
    pub rpm_enabled: bool,
}

/// One line of status: the temperature, the duty commanded, and the average
/// fan speed where it is measured.
#[derive(Clone, Copy, Debug, PartialEq, Eq)]
pub struct Report {
    pub temperature: Millidegrees,
    pub duty: DutyCycle,
    pub average_speed: Option<u64>,
}

/// The outcome of an action.
#[derive(Clone, Copy, Debug, PartialEq, Eq)]
pub enum Event {
    /// The PWM channel was configured, or could not be.
    PwmConfigured(Result<(), PwmFailure>),
    /// The estimator was subscribed to the tachometer's edges, or could not be.
    EdgesSubscribed(Result<(), PinFailure>),
    /// The sensor gave a reading, or could not be read.
    Temperature(Result<Millidegrees, ReadFailure>),
    /// The shaping term for the temperature asked about.
    Shaped(DutyCycle),
    /// The duty was written (`true`), or could not be (`false`).
    DutyWritten(bool),
    /// The estimator was drained and gave this average speed.
    Drained(u64),
    /// The report was put out.
    Reported,
    /// The sleep is over.
    Woke,
}

/// What the caller is to do next.
#[derive(Clone, Copy, Debug, PartialEq, Eq)]
pub enum Action {
    /// Configure the PWM channel, with normal polarity.
    ConfigurePwm { channel: u8, frequency_hz: u32, initial: DutyCycle, enabled: bool },
    /// Subscribe the estimator to the falling edges on the pin.
    SubscribeEdges { pin: u8 },
    /// Read the temperature sensor.
    ReadTemperature,
    /// Compute the shaping term for this temperature.
    Shape { temperature: Millidegrees },
    /// Command the actuator with this duty.
    SetDuty(DutyCycle),
    /// Drain the estimator.
    DrainEstimator,
    /// Put out this report.
    Report(Report),
    /// Sleep for so many milliseconds.
    Sleep { millis: u64 },
    /// End the process on this failure.
    Terminate(Failure),
}

/// Where the controller stands: which outcome it waits for.
#[derive(Clone, Copy, Debug, PartialEq, Eq)]
pub enum Phase {
    ConfiguringPwm,
    SubscribingEdges,
    ReadingTemperature,
    Shaping { temperature: Millidegrees },
    WritingDuty { temperature: Millidegrees, duty: DutyCycle },
    Draining { temperature: Millidegrees, duty: DutyCycle },
    Reporting { report: Report },
    Sleeping,
    Failed(Failure),
}

/// The temperature that a reading stands for: itself; 45 degrees where the
/// sensor could not be read for a passing reason; a failure where it may not
/// be read or is not there.
pub open spec fn resolved(outcome: Result<Millidegrees, ReadFailure>) -> Result<
    Millidegrees,
    Failure,
> {
    match outcome {
        Ok(temperature) => Ok(temperature),
        Err(ReadFailure::Other) => Ok(FALLBACK_READING),
        Err(ReadFailure::PermissionDenied) => Err(Failure::SensorPermissionDenied),
        Err(ReadFailure::NotFound) => Err(Failure::SensorNotFound),
    }
}

/// The phase after the temperature is known.
pub open spec fn after_reading(settings: Settings, temperature: Millidegrees) -> Phase {
    let m = settings.curve@;
    if settings.curve_mode is Blended && m.min_temp <= temperature < m.max_temp {
        Phase::Shaping { temperature }
    } else {
        Phase::WritingDuty {
            temperature,
            duty: DutyCycle::of(linear_curve(m, temperature as int)),
        }
    }
}

/// The phase that follows `phase` on `event`. An event that is not the
/// outcome which `phase` waits for changes nothing.
pub open spec fn advance(settings: Settings, phase: Phase, event: Event) -> Phase {
    match phase {
        Phase::ConfiguringPwm => match event {
            Event::PwmConfigured(Ok(_)) => if settings.rpm_enabled {
                Phase::SubscribingEdges
            } else {
                Phase::ReadingTemperature
            },
            Event::PwmConfigured(Err(cause)) => Phase::Failed(pwm_failure(cause)),
            _ => phase,
        },
        Phase::SubscribingEdges => match event {
            Event::EdgesSubscribed(Ok(_)) => Phase::ReadingTemperature,
            Event::EdgesSubscribed(Err(cause)) => Phase::Failed(pin_failure(cause)),
            _ => phase,
        },
        Phase::ReadingTemperature => match event {
            Event::Temperature(outcome) => match resolved(outcome) {
                Ok(temperature) => after_reading(settings, temperature),
                Err(failure) => Phase::Failed(failure),
            },
            _ => phase,
        },
        Phase::Shaping { temperature } => match event {
            Event::Shaped(shaping) => Phase::WritingDuty {
                temperature,
                duty: DutyCycle::of(blended_curve(settings.curve@, temperature as int, shaping@)),
            },
            _ => phase,
        },
        Phase::WritingDuty { temperature, duty } => match event {
            Event::DutyWritten(true) => if settings.rpm_enabled {
                Phase::Draining { temperature, duty }
            } else {
                Phase::Reporting { report: Report { temperature, duty, average_speed: None } }
            },
            Event::DutyWritten(false) => Phase::Failed(Failure::ActuatorWrite),
            _ => phase,
        },
        Phase::Draining { temperature, duty } => match event {
            Event::Drained(speed) => Phase::Reporting {
                report: Report { temperature, duty, average_speed: Some(speed) },
            },
            _ => phase,
        },
        Phase::Reporting { report } => match event {
            Event::Reported => Phase::Sleeping,
            _ => phase,
        },
        Phase::Sleeping => match event {
            Event::Woke => Phase::ReadingTemperature,
            _ => phase,
        },
        Phase::Failed(failure) => phase,
    }
}

/// The action whose outcome `phase` waits for.
pub open spec fn pending(phase: Phase) -> Action {
    match phase {
        Phase::ConfiguringPwm => Action::ConfigurePwm {
            channel: PWM_CHANNEL,
            frequency_hz: PWM_FREQUENCY_HZ,
            initial: DutyCycle::of(0),
            enabled: true,
        },
        Phase::SubscribingEdges => Action::SubscribeEdges { pin: TACHOMETER_PIN },
        Phase::ReadingTemperature => Action::ReadTemperature,
        Phase::Shaping { temperature } => Action::Shape { temperature },
        Phase::WritingDuty { temperature, duty } => Action::SetDuty(duty),
        Phase::Draining { temperature, duty } => Action::DrainEstimator,
        Phase::Reporting { report } => Action::Report(report),
        Phase::Sleeping => Action::Sleep { millis: PERIOD_MILLIS },
        Phase::Failed(failure) => Action::Terminate(failure),
    }
}

/// The phase that follows `phase` on the events of `events`, in their order.
pub open spec fn after_events(settings: Settings, phase: Phase, events: Seq<Event>) -> Phase
    decreases events.len(),
{
    if events.len() == 0 {
        phase
    } else {
        advance(settings, after_events(settings, phase, events.drop_last()), events.last())
    }
}

/// A controller that has failed stays failed: whatever events follow, it
/// asks only for the process to end, and never for a duty to be set.
pub proof fn lemma_failure_is_final(settings: Settings, failure: Failure, events: Seq<Event>)
    ensures
        after_events(settings, Phase::Failed(failure), events) == Phase::Failed(failure),
        pending(after_events(settings, Phase::Failed(failure), events)) == Action::Terminate(
            failure,
        ),
    decreases events.len(),
{
    if events.len() > 0 {
        lemma_failure_is_final(settings, failure, events.drop_last());
    }
}

/// Where configuring the PWM channel fails, no duty is ever commanded: every
/// action after that outcome ends the process on the failure that it is.
pub proof fn lemma_no_command_without_pwm(settings: Settings, cause: PwmFailure, later: Seq<Event>)
    ensures
        pending(
            after_events(
                settings,
                advance(settings, Phase::ConfiguringPwm, Event::PwmConfigured(Err(cause))),
                later,
            ),
        ) == Action::Terminate(pwm_failure(cause)),
{
    lemma_failure_is_final(settings, pwm_failure(cause), later);
}

/// Within a tick nothing is done out of turn. An action that a step newly
/// asks for follows the outcome that it depends on: the temperature is read
/// at the start or after the sleep, a duty is commanded only once the
/// temperature is known, the estimator is drained and the report put out
/// only once the duty was written, and the sleep follows the report.
pub proof fn lemma_tick_order(settings: Settings, phase: Phase, event: Event)
    requires
        advance(settings, phase, event) != phase,
    ensures
        match pending(advance(settings, phase, event)) {
            Action::ConfigurePwm { .. } => false,
            Action::SubscribeEdges { .. } => phase is ConfiguringPwm,
            Action::ReadTemperature => phase is ConfiguringPwm || phase is SubscribingEdges
                || phase is Sleeping,
            Action::Shape { .. } => phase is ReadingTemperature,
            Action::SetDuty(_) => phase is ReadingTemperature || phase is Shaping,
            Action::DrainEstimator => phase is WritingDuty,
            Action::Report(_) => phase is WritingDuty || phase is Draining,
            Action::Sleep { .. } => phase is Reporting,
            Action::Terminate(_) => !(phase is Failed),
        },
{
}

/// The duty `duty` is what the curve of `settings` gives at `temperature`:
/// within a full cycle; zero below `off_temp`, `fan_low` below `min_temp`,
/// `fan_max` from `max_temp` on; and on the ramp, without shaping, the
/// linear ramp.
pub open spec fn on_curve(settings: Settings, temperature: Millidegrees, duty: DutyCycle) -> bool {
    let m = settings.curve@;
    &&& 0 <= duty@ <= DUTY_SCALE
    &&& temperature < m.off_temp ==> duty@ == 0
    &&& m.off_temp <= temperature < m.min_temp ==> duty@ == m.fan_low
    &&& temperature >= m.max_temp ==> duty@ == m.fan_max
    &&& settings.curve_mode is Linear ==> duty@ == linear_curve(m, temperature as int)
}

/// The temperature and the duty that `phase` holds, if it holds them, belong
/// together; and the shaping term is awaited only where the curve needs it.
pub open spec fn coherent(settings: Settings, phase: Phase) -> bool {
    match phase {
        Phase::Shaping { temperature } => {
            &&& settings.curve_mode is Blended
            &&& settings.curve@.min_temp <= temperature < settings.curve@.max_temp
        },
        Phase::WritingDuty { temperature, duty } => on_curve(settings, temperature, duty),
        Phase::Draining { temperature, duty } => on_curve(settings, temperature, duty),
        Phase::Reporting { report } => on_curve(settings, report.temperature, report.duty),
        _ => true,
    }
}

/// Every shaping term among `events` is within a full cycle.
pub open spec fn shaping_in_range(events: Seq<Event>) -> bool {
    forall|i: int|
        0 <= i < events.len() ==> (#[trigger] events[i] matches Event::Shaped(shaping) ==> 0
            <= shaping@ <= DUTY_SCALE)
}

/// Whatever happens, the duty that is commanded, and later reported, is the
/// duty that the curve gives at the temperature reported with it: in every
/// phase that the controller can reach from its start.
pub proof fn lemma_commands_follow_the_curve(settings: Settings, events: Seq<Event>)
    requires
        settings.curve@.valid(),
        shaping_in_range(events),
    ensures
        coherent(settings, after_events(settings, Phase::ConfiguringPwm, events)),
    decreases events.len(),
{
    if events.len() > 0 {
        let earlier = events.drop_last();
        assert forall|i: int| 0 <= i < earlier.len() implies (#[trigger] earlier[i] matches Event::Shaped(
            shaping,
        ) ==> 0 <= shaping@ <= DUTY_SCALE) by {
            assert(earlier[i] == events[i]);
        }
        lemma_commands_follow_the_curve(settings, earlier);
        let phase = after_events(settings, Phase::ConfiguringPwm, earlier);
        let event = events.last();
        let m = settings.curve@;
        match phase {
            Phase::ReadingTemperature => match event {
                Event::Temperature(outcome) => match resolved(outcome) {
                    Ok(temperature) => {
                        lemma_curve_bounds(m, temperature as int, 0);
                        DutyCycle::lemma_of(linear_curve(m, temperature as int));
                    },
                    Err(_) => {},
                },
                _ => {},
            },
            Phase::Shaping { temperature } => match event {
                Event::Shaped(shaping) => {
                    assert(event == events[events.len() - 1]);
                    lemma_curve_bounds(m, temperature as int, shaping@);
                    DutyCycle::lemma_of(blended_curve(m, temperature as int, shaping@));
                },
                _ => {},
            },
            _ => {},
        }
    }
}

/// The control loop's state.
#[derive(Clone, Copy, Debug, PartialEq, Eq)]
pub struct Controller {
    settings: Settings,
    phase: Phase,
}

impl Controller {
    /// What the controller is configured with.
    pub closed spec fn settings(&self) -> Settings {
        self.settings
    }

    /// Where the controller stands.
    pub closed spec fn phase(&self) -> Phase {
        self.phase
    }

    /// A controller that has acquired nothing yet: its first action is to
    /// configure the PWM channel.
    pub fn new(settings: Settings) -> (controller: Controller)
        ensures
            controller.settings() == settings,
            controller.phase() == Phase::ConfiguringPwm,
    {
        Controller { settings, phase: Phase::ConfiguringPwm }
    }

    /// What the controller is configured with.
    pub fn configuration(&self) -> (settings: Settings)
        ensures
            settings == self.settings(),
    {
        self.settings
    }

    /// Where the controller stands.
    pub fn current_phase(&self) -> (phase: Phase)
        ensures
            phase == self.phase(),
    {
        self.phase
    }

    /// The action whose outcome the controller waits for.
    pub fn pending_action(&self) -> (action: Action)
        ensures
            action == pending(self.phase()),
    {
        match self.phase {
            Phase::ConfiguringPwm => {
                let initial = DutyCycle::off();
                proof {
                    initial.lemma_of_view();
                }
                Action::ConfigurePwm {
                    channel: PWM_CHANNEL,
                    frequency_hz: PWM_FREQUENCY_HZ,
                    initial,
                    enabled: true,
                }
            },
            Phase::SubscribingEdges => Action::SubscribeEdges { pin: TACHOMETER_PIN },
            Phase::ReadingTemperature => Action::ReadTemperature,
            Phase::Shaping { temperature } => Action::Shape { temperature },
            Phase::WritingDuty { temperature, duty } => Action::SetDuty(duty),
            Phase::Draining { temperature, duty } => Action::DrainEstimator,
            Phase::Reporting { report } => Action::Report(report),
            Phase::Sleeping => Action::Sleep { millis: PERIOD_MILLIS },
            Phase::Failed(failure) => Action::Terminate(failure),
        }
    }

    /// The temperature that a reading stands for, or the failure that ends the loop.
    pub fn resolve(outcome: Result<Millidegrees, ReadFailure>) -> (temperature: Result<
        Millidegrees,
        Failure,
    >)
        ensures
            temperature == resolved(outcome),
    {
        match outcome {
            Ok(temperature) => Ok(temperature),
            Err(ReadFailure::Other) => Ok(FALLBACK_READING),
            Err(ReadFailure::PermissionDenied) => Err(Failure::SensorPermissionDenied),
            Err(ReadFailure::NotFound) => Err(Failure::SensorNotFound),
        }
    }

    /// Takes the outcome of the pending action and returns the next action.
    /// An event that is not that outcome changes nothing, and the pending
    /// action is returned again.
    pub fn step(&mut self, event: Event) -> (action: Action)
        ensures
            final(self).settings() == old(self).settings(),
            final(self).phase() == advance(old(self).settings(), old(self).phase(), event),
            action == pending(final(self).phase()),
    {
        let settings = self.settings;
        let next = match self.phase {
            Phase::ConfiguringPwm => match event {
                Event::PwmConfigured(Ok(_)) => if settings.rpm_enabled {
                    Phase::SubscribingEdges
                } else {
                    Phase::ReadingTemperature
                },
                Event::PwmConfigured(Err(cause)) => Phase::Failed(Failure::from_pwm(cause)),
                _ => self.phase,
            },
            Phase::SubscribingEdges => match event {
                Event::EdgesSubscribed(Ok(_)) => Phase::ReadingTemperature,
                Event::EdgesSubscribed(Err(cause)) => Phase::Failed(Failure::from_pin(cause)),
                _ => self.phase,
            },
            Phase::ReadingTemperature => match event {
                Event::Temperature(outcome) => match Self::resolve(outcome) {
                    Ok(temperature) => {
                        let blended = match settings.curve_mode {
                            CurveMode::Blended => true,
                            CurveMode::Linear => false,
                        };
                        if blended && settings.curve.needs_shaping(temperature) {
                            Phase::Shaping { temperature }
                        } else {
                            Phase::WritingDuty {
                                temperature,
                                duty: settings.curve.evaluate(temperature),
                            }
                        }
                    },
                    Err(failure) => Phase::Failed(failure),
                },
                _ => self.phase,
            },
            Phase::Shaping { temperature } => match event {
                Event::Shaped(shaping) => Phase::WritingDuty {
                    temperature,
                    duty: settings.curve.evaluate_blended(temperature, shaping),
                },
                _ => self.phase,
            },
            Phase::WritingDuty { temperature, duty } => match event {
                Event::DutyWritten(true) => if settings.rpm_enabled {
                    Phase::Draining { temperature, duty }
                } else {
                    Phase::Reporting { report: Report { temperature, duty, average_speed: None } }
                },
                Event::DutyWritten(false) => Phase::Failed(Failure::ActuatorWrite),
                _ => self.phase,
            },
            Phase::Draining { temperature, duty } => match event {
                Event::Drained(speed) => Phase::Reporting {
                    report: Report { temperature, duty, average_speed: Some(speed) },
                },
                _ => self.phase,
            },
            Phase::Reporting { report } => match event {
                Event::Reported => Phase::Sleeping,
                _ => self.phase,
            },
            Phase::Sleeping => match event {
                Event::Woke => Phase::ReadingTemperature,
                _ => self.phase,
            },
            Phase::Failed(failure) => self.phase,
        };
        self.phase = next;
        self.pending_action()
    }
}

} // verus!
