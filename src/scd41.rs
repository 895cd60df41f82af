use vstd::prelude::*;
use crate::conversion::{
    humidity_milli_pct, humidity_milli_spec, temperature_milli_c, temperature_milli_spec,
    RawReading, SCD41_TEMPERATURE_OFFSET_MILLI,
};
use crate::cycle::{action_spec, advance_spec, BusAction, BusEvent, CycleOutcome, MeasurementCycle, Step};
use crate::store::Measurement;

verus! {

/// Driver of an SCD41 sensor at a 16-bit bus address, with a temperature
/// offset of 45000 thousandths of a degree. It keeps the last reading it took and the position
/// of its sampling cycle; the caller performs the bus work it asks for.
pub struct SCD41 {
    addr: u16,
    cycle: MeasurementCycle,
    reading: RawReading,
}

impl SCD41 {
    /// The bus address the driver talks to.
    pub closed spec fn spec_addr(&self) -> u16 {
        self.addr
    }

    /// The step of the sampling cycle that comes next.
    pub closed spec fn step(&self) -> Step {
        self.cycle.step()
    }

    /// Whether the checksums of an answer are checked.
    pub closed spec fn validates(&self) -> bool {
        self.cycle.validates()
    }

    /// The last reading taken, all zero before the first.
    pub closed spec fn raw(&self) -> RawReading {
        self.reading
    }

    /// A driver for the sensor at `addr` that has taken no reading yet.
    pub fn new(addr: u16) -> (r: Self)
        ensures
            r.spec_addr() == addr,
            r.step() == Step::StopPeriodic,
            !r.validates(),
            r.raw() == (RawReading {
                co2: 0,
                crc_co2: 0,
                temperature: 0,
                crc_temperature: 0,
                humidity: 0,
                crc_humidity: 0,
            }),
    {
        SCD41 {
            addr,
            cycle: MeasurementCycle::new(),
            reading: RawReading {
                co2: 0,
                crc_co2: 0,
                temperature: 0,
                crc_temperature: 0,
                humidity: 0,
                crc_humidity: 0,
            },
        }
    }

    /// The bus address the driver talks to.
    pub fn address(&self) -> (r: u16)
        ensures
            r == self.spec_addr(),
    {
        self.addr
    }

    /// Turns checksum validation of the sensor's answers on or off.
    pub fn set_checksum_validation(&mut self, on: bool)
        ensures
            final(self).validates() == on,
            final(self).step() == old(self).step(),
            final(self).spec_addr() == old(self).spec_addr(),
            final(self).raw() == old(self).raw(),
    {
        self.cycle.set_checksum_validation(on);
    }

    /// The bus work that the current step of the sampling cycle needs.
    pub fn next_action(&self) -> (r: BusAction)
        ensures
            r == action_spec(self.step()),
    {
        self.cycle.next_action()
    }

    /// Takes what came of the last bus action and moves the sampling cycle on.
    /// A completed read replaces the kept reading; anything else, a read
    /// rejected for its checksums included, leaves it.
    pub fn measurements(&mut self, event: BusEvent) -> (r: CycleOutcome)
        ensures
            (final(self).step(), r) == advance_spec(old(self).step(), old(self).validates(), event),
            final(self).validates() == old(self).validates(),
            final(self).spec_addr() == old(self).spec_addr(),
            final(self).raw() == (match r {
                CycleOutcome::Sampled(raw) => raw,
                _ => old(self).raw(),
            }),
    {
        let outcome = self.cycle.advance(event);
        if let CycleOutcome::Sampled(raw) = outcome {
            self.reading = raw;
        }
        outcome
    }

    /// CO2 concentration in parts per million.
    pub fn co2(&self) -> (r: u16)
        ensures
            r == self.raw().co2,
    {
        self.reading.co2
    }

    /// Temperature in thousandths of a degree Celsius.
    pub fn temperature(&self) -> (r: i32)
        ensures
            r as int == temperature_milli_spec(
                self.raw().temperature as int,
                SCD41_TEMPERATURE_OFFSET_MILLI as int,
            ),
    {
        temperature_milli_c(self.reading.temperature, SCD41_TEMPERATURE_OFFSET_MILLI)
    }

    /// Relative humidity in thousandths of a percent.
    pub fn humidity(&self) -> (r: u32)
        ensures
            r as int == humidity_milli_spec(self.raw().humidity as int),
            r < 100000,
    {
        humidity_milli_pct(self.reading.humidity)
    }

    /// The last reading taken, as it is shared.
    pub fn reading(&self) -> (r: Measurement)
        ensures
            r == Measurement::spec_from_raw(self.raw()),
    {
        Measurement::from_raw(self.reading)
    }
}

} // verus!
