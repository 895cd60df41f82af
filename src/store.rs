use vstd::prelude::*;
use crate::conversion::RawReading;
use crate::cycle::CycleOutcome;

verus! {

/// One reading as it is shared and served: the CO2 concentration in parts per
/// million and the raw temperature and humidity words, from which the
/// engineering units follow by the fixed conversions.
#[derive(Clone, Copy, Debug, PartialEq, Eq, Structural)]
pub struct Measurement {
    pub co2: u16,
    pub temperature_raw: u16,
    pub humidity_raw: u16,
}

impl Measurement {
    /// The reading before any sample was taken: every word zero.
    pub open spec fn spec_zero() -> Measurement {
        Measurement { co2: 0, temperature_raw: 0, humidity_raw: 0 }
    }

    /// The reading that a parsed answer holds; its checksums are dropped.
    pub open spec fn spec_from_raw(r: RawReading) -> Measurement {
        Measurement { co2: r.co2, temperature_raw: r.temperature, humidity_raw: r.humidity }
    }

    /// The reading before any sample was taken.
    pub fn zero() -> (r: Measurement)
        ensures
            r == Measurement::spec_zero(),
    {
        Measurement { co2: 0, temperature_raw: 0, humidity_raw: 0 }
    }

    /// The reading that a parsed answer holds.
    pub fn from_raw(r: RawReading) -> (m: Measurement)
        ensures
            m == Measurement::spec_from_raw(r),
    {
        Measurement { co2: r.co2, temperature_raw: r.temperature, humidity_raw: r.humidity }
    }
}

/// A single slot holding the latest reading. One task publishes into it, others
/// take snapshots; each operation copies the whole value, so the caller's lock
/// needs to be held only for that copy.
///
/// The store also keeps, as ghost state, every reading published so far.
pub struct MeasurementStore {
    current: Measurement,
    published: Ghost<Seq<Measurement>>,
}

impl MeasurementStore {
    /// The reading that a snapshot returns now.
    pub closed spec fn current(&self) -> Measurement {
        self.current
    }

    /// Every reading published so far, oldest first.
    pub closed spec fn published(&self) -> Seq<Measurement> {
        self.published@
    }

    /// The slot holds the last published reading, or the zero reading when
    /// nothing was published yet.
    pub open spec fn wf(&self) -> bool {
        if self.published().len() == 0 {
            self.current() == Measurement::spec_zero()
        } else {
            self.current() == self.published().last()
        }
    }

    /// A store holding the zero reading.
    pub fn new() -> (r: Self)
        ensures
            r.wf(),
            r.published().len() == 0,
            r.current() == Measurement::spec_zero(),
    {
        MeasurementStore { current: Measurement::zero(), published: Ghost(Seq::empty()) }
    }

    /// Replaces the held reading with `m`; nothing of the old one remains.
    pub fn publish(&mut self, m: Measurement)
        requires
            old(self).wf(),
        ensures
            final(self).wf(),
            final(self).current() == m,
            final(self).published() == old(self).published().push(m),
    {
        self.current = m;
        self.published = Ghost(self.published@.push(m));
    }

    /// A copy of the held reading.
    pub fn snapshot(&self) -> (r: Measurement)
        requires
            self.wf(),
        ensures
            r == self.current(),
            self.published().len() == 0 ==> r == Measurement::spec_zero(),
            self.published().len() > 0 ==> r == self.published().last(),
    {
        self.current
    }
}

/// A snapshot never mixes fields of different publications: it is, as a whole,
/// the zero reading when nothing was published, else the reading of one single
/// publication, the latest.
pub proof fn lemma_snapshot_is_whole(s: MeasurementStore)
    requires
        s.wf(),
    ensures
        s.published().len() == 0 ==> s.current() == Measurement::spec_zero(),
        s.published().len() > 0 ==> s.published().contains(s.current()),
        s.published().len() > 0 ==> s.current() == s.published()[s.published().len() - 1],
{
    if s.published().len() > 0 {
        assert(s.published()[s.published().len() - 1] == s.current());
    }
}

/// What an acquisition step hands to the store: the reading of a completed
/// cycle, nothing for a step in progress or a failed one (the store then keeps
/// the last reading).
pub fn publication(outcome: CycleOutcome) -> (r: Option<Measurement>)
    ensures
        r == (match outcome {
            CycleOutcome::Sampled(raw) => Some(Measurement::spec_from_raw(raw)),
            _ => None,
        }),
{
    match outcome {
        CycleOutcome::Sampled(raw) => Some(Measurement::from_raw(raw)),
        _ => None,
    }
}

} // verus!
