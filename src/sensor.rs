//! The sensor publisher: reset the sensor, let it power up, start periodic
//! measurement (retrying on each tick until the sensor acknowledges), then on
//! every tick read a sample and publish it. Sensor errors are never fatal:
//! the next tick simply tries again.
use vstd::prelude::*;
use crate::channel::{Sample, SampleChannel, after_publish};

verus! {

/// Time the sensor needs after a reset before it takes commands, in milliseconds.
pub const POWER_UP_DELAY_MS: u64 = 10;

/// Interval between two measurements, in milliseconds.
pub const TICK_MS: u64 = 1000;

#[derive(Clone, Copy, Debug, PartialEq, Eq, Structural)]
pub enum SensorPhase {
    Resetting,
    PoweringUp,
    Starting,
    Sampling,
}

/// What the sensor task observed after the last action.
#[derive(Clone, Copy, Debug, PartialEq, Eq, Structural)]
pub enum SensorEvent {
    /// The reset command was sent; its outcome does not matter.
    ResetSent,
    /// The power-up delay is over.
    PoweredUp,
    /// The start command was sent; whether the sensor acknowledged it.
    StartAcked(bool),
    /// A measurement was requested: the sample, or `None` on a sensor error.
    Measured(Option<Sample>),
}

/// What the sensor task must do next.
#[derive(Clone, Copy, Debug, PartialEq, Eq, Structural)]
pub enum SensorAction {
    /// Send the reset command and report `ResetSent`.
    Reset,
    /// Sleep this many milliseconds and report `PoweredUp`.
    PowerUpDelay(u64),
    /// Send the start command and report `StartAcked`.
    StartMeasurement,
    /// Wait for the next tick, send the start command, report `StartAcked`.
    RetryStartOnTick,
    /// Wait for the next tick, request a sample, report `Measured`.
    MeasureOnTick,
}

/// The action that a phase repeats when an event arrives out of turn.
pub open spec fn phase_action(phase: SensorPhase) -> SensorAction {
    match phase {
        SensorPhase::Resetting => SensorAction::Reset,
        SensorPhase::PoweringUp => SensorAction::PowerUpDelay(POWER_UP_DELAY_MS),
        SensorPhase::Starting => SensorAction::RetryStartOnTick,
        SensorPhase::Sampling => SensorAction::MeasureOnTick,
    }
}

/// The transition table.
pub open spec fn sensor_next(phase: SensorPhase, ev: SensorEvent) -> (SensorPhase, SensorAction) {
    match (phase, ev) {
        (SensorPhase::Resetting, SensorEvent::ResetSent) => (
            SensorPhase::PoweringUp,
            SensorAction::PowerUpDelay(POWER_UP_DELAY_MS),
        ),
        (SensorPhase::PoweringUp, SensorEvent::PoweredUp) => (SensorPhase::Starting, SensorAction::StartMeasurement),
        (SensorPhase::Starting, SensorEvent::StartAcked(true)) => (SensorPhase::Sampling, SensorAction::MeasureOnTick),
        (SensorPhase::Starting, SensorEvent::StartAcked(false)) => (SensorPhase::Starting, SensorAction::RetryStartOnTick),
        (SensorPhase::Sampling, SensorEvent::Measured(_)) => (SensorPhase::Sampling, SensorAction::MeasureOnTick),
        _ => (phase, phase_action(phase)),
    }
}

/// The sample that `ev` publishes from `phase`, if any: a successful
/// measurement while sampling.
pub open spec fn published_by(phase: SensorPhase, ev: SensorEvent) -> Option<Sample> {
    match (phase, ev) {
        (SensorPhase::Sampling, SensorEvent::Measured(Some(s))) => Some(s),
        _ => None,
    }
}

pub struct SensorPublisher {
    phase: SensorPhase,
}

impl SensorPublisher {
    pub closed spec fn spec_phase(&self) -> SensorPhase {
        self.phase
    }

    /// A publisher about to reset the sensor; its first action is `Reset`.
    pub fn new() -> (r: (SensorPublisher, SensorAction))
        ensures
            r.0.spec_phase() == SensorPhase::Resetting,
            r.1 == SensorAction::Reset,
    {
        (SensorPublisher { phase: SensorPhase::Resetting }, SensorAction::Reset)
    }

    pub fn phase(&self) -> (r: SensorPhase)
        ensures
            r == self.spec_phase(),
    {
        self.phase
    }

    /// Takes one transition on `ev`, publishing into `channel` the sample of
    /// a successful measurement, and returns the next action. An error
    /// publishes nothing and leaves the channel as it was.
    pub fn step(&mut self, ev: SensorEvent, channel: &mut SampleChannel) -> (r: SensorAction)
        ensures
            (final(self).spec_phase(), r) == sensor_next(old(self).spec_phase(), ev),
            final(channel).pending() == (match published_by(old(self).spec_phase(), ev) {
                Some(s) => after_publish(old(channel).pending(), s),
                None => old(channel).pending(),
            }),
    {
        let next = match (self.phase, ev) {
            (SensorPhase::Resetting, SensorEvent::ResetSent) => (
                SensorPhase::PoweringUp,
                SensorAction::PowerUpDelay(POWER_UP_DELAY_MS),
            ),
            (SensorPhase::PoweringUp, SensorEvent::PoweredUp) => (SensorPhase::Starting, SensorAction::StartMeasurement),
            (SensorPhase::Starting, SensorEvent::StartAcked(ok)) => {
                if ok {
                    (SensorPhase::Sampling, SensorAction::MeasureOnTick)
                } else {
                    (SensorPhase::Starting, SensorAction::RetryStartOnTick)
                }
            },
            (SensorPhase::Sampling, SensorEvent::Measured(m)) => {
                if let Some(s) = m {
                    channel.publish(s);
                }
                (SensorPhase::Sampling, SensorAction::MeasureOnTick)
            },
            (SensorPhase::Resetting, _) => (SensorPhase::Resetting, SensorAction::Reset),
            (SensorPhase::PoweringUp, _) => (
                SensorPhase::PoweringUp,
                SensorAction::PowerUpDelay(POWER_UP_DELAY_MS),
            ),
            (SensorPhase::Starting, _) => (SensorPhase::Starting, SensorAction::RetryStartOnTick),
            (SensorPhase::Sampling, _) => (SensorPhase::Sampling, SensorAction::MeasureOnTick),
        };
        self.phase = next.0;
        next.1
    }
}

} // verus!
