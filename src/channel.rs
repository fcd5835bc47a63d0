//! The single-slot hand-off between the sensor task and any reader: a new
//! sample overwrites one that nobody has taken yet.
use vstd::prelude::*;
use embassy_sync::blocking_mutex::raw::NoopRawMutex;
use embassy_sync::signal::Signal;

verus! {

/// One reading of the temperature and humidity sensor.
#[derive(Clone, Copy, Debug, PartialEq, Eq, Structural)]
pub struct Sample {
    /// Temperature in whole degrees Celsius.
    pub temperature: i16,
    /// Relative humidity in whole percent.
    pub humidity: u8,
}

/// Holds an `embassy_sync` signal, which keeps its state behind a mutex and a
/// cell, out of the verifier's sight; the wrappers below speak of its contents.
#[verifier::external_body]
pub struct SampleSignal {
    inner: Signal<NoopRawMutex, Sample>,
}

/// The sample that a signal holds, if one was signalled and not yet taken.
pub uninterp spec fn signal_contents(s: SampleSignal) -> Option<Sample>;

/// Relies on `Signal::new`: a new signal holds nothing.
#[verifier::external_body]
fn signal_new() -> (r: SampleSignal)
    ensures
        signal_contents(r) == None::<Sample>,
{
    SampleSignal { inner: Signal::new() }
}

/// Relies on `Signal::signal`: the state becomes `Signaled(val)`, whatever it was.
#[verifier::external_body]
fn signal_put(s: &mut SampleSignal, val: Sample)
    ensures
        signal_contents(*final(s)) == Some(val),
{
    s.inner.signal(val)
}

/// Relies on `Signal::try_take`: it returns the signalled value, if any, and
/// leaves no value behind.
#[verifier::external_body]
fn signal_take(s: &mut SampleSignal) -> (r: Option<Sample>)
    ensures
        r == signal_contents(*old(s)),
        signal_contents(*final(s)) == None::<Sample>,
{
    s.inner.try_take()
}

/// Relies on `Signal::signaled`: true exactly when a value is waiting; the
/// state is put back as it was.
#[verifier::external_body]
fn signal_pending(s: &SampleSignal) -> (r: bool)
    ensures
        r == signal_contents(*s).is_some(),
{
    s.inner.signaled()
}

/// The slot after a sample is published into it: the new sample, whatever
/// was there before.
pub open spec fn after_publish(slot: Option<Sample>, sample: Sample) -> Option<Sample> {
    Some(sample)
}

/// What a read returns from the slot, and the slot after it.
pub open spec fn after_take(slot: Option<Sample>) -> (Option<Sample>, Option<Sample>) {
    (slot, None)
}

/// Latest-value-wins channel for sensor samples, owned by the task that
/// creates it and handed by reference to the producer and the readers.
pub struct SampleChannel {
    signal: SampleSignal,
}

impl SampleChannel {
    /// The sample waiting to be read, if any.
    pub closed spec fn pending(&self) -> Option<Sample> {
        signal_contents(self.signal)
    }

    pub fn new() -> (r: SampleChannel)
        ensures
            r.pending() == None::<Sample>,
    {
        SampleChannel { signal: signal_new() }
    }

    /// Stores `sample`, dropping any sample that was not read yet.
    pub fn publish(&mut self, sample: Sample)
        ensures
            final(self).pending() == after_publish(old(self).pending(), sample),
    {
        signal_put(&mut self.signal, sample);
    }

    /// Takes the waiting sample, leaving the channel empty.
    pub fn take(&mut self) -> (r: Option<Sample>)
        ensures
            (r, final(self).pending()) == after_take(old(self).pending()),
    {
        signal_take(&mut self.signal)
    }

    /// Whether a sample is waiting.
    pub fn has_pending(&self) -> (r: bool)
        ensures
            r == self.pending().is_some(),
    {
        signal_pending(&self.signal)
    }
}

/// Publishing `b` after `a`, with no read in between, discards `a`: the
/// next read returns `b`, and a read after that finds nothing, so no stale
/// sample is ever queued behind the latest one.
pub proof fn lemma_latest_sample_wins(slot: Option<Sample>, a: Sample, b: Sample)
    ensures
        after_take(after_publish(after_publish(slot, a), b)).0 == Some(b),
        after_take(after_take(after_publish(after_publish(slot, a), b)).1).0 == None::<Sample>,
{
}

} // verus!
