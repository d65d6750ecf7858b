//! Readings of the environmental sensor, and when to ask it for one.

use vstd::prelude::*;
use crate::gate::{GateState, PeriodicGate};
use crate::time::Instant;

verus! {

/// Seconds between two polls of the sensor.
pub const POLLING_INTERVAL: u32 = 15;

/// One measurement, in the sensor's own fixed-point units.
#[derive(Copy, Clone, Eq, PartialEq, Structural, Hash, Debug)]
pub struct SensorReading {
    /// Temperature in hundredths of a degree Celsius.
    pub temperature: i16,
    /// Pressure in pascal, that is hundredths of a hectopascal.
    pub pressure: u32,
    /// Relative humidity in thousandths of a percent.
    pub humidity: u32,
    /// Gas resistance in ohm; it counts only where `gas_valid` is set.
    pub gas_resistance: u32,
    /// Whether the gas resistance was really measured.
    pub gas_valid: bool,
}

impl SensorReading {
    /// The gas resistance in ohm, where one was measured.
    pub open spec fn gas_resistance_spec(self) -> Option<u32> {
        if self.gas_valid {
            Some(self.gas_resistance)
        } else {
            None
        }
    }

    pub fn gas_resistance_ohm(&self) -> (ohm: Option<u32>)
        ensures
            ohm == self.gas_resistance_spec(),
    {
        if self.gas_valid {
            Some(self.gas_resistance)
        } else {
            None
        }
    }
}

/// What came of asking the sensor for a measurement.
#[derive(Copy, Clone, Eq, PartialEq, Structural, Hash, Debug)]
pub enum SensorEvent {
    /// The sensor holds a measurement that was not read before.
    NewData(SensorReading),
    /// The sensor holds nothing new.
    Unchanged,
    /// The sensor could not be read.
    Failed,
}

impl SensorEvent {
    /// The measurement that the event brings, if it brings one.
    pub open spec fn fresh_spec(self) -> Option<SensorReading> {
        match self {
            SensorEvent::NewData(data) => Some(data),
            _ => None,
        }
    }

    pub fn fresh(&self) -> (data: Option<SensorReading>)
        ensures
            data == self.fresh_spec(),
    {
        match self {
            SensorEvent::NewData(data) => Some(*data),
            _ => None,
        }
    }
}

/// What paces the polls of a sensor which was last polled at the given
/// instant.
pub open spec fn polling_gate(last_polled: Instant) -> GateState {
    GateState { interval: POLLING_INTERVAL, last_fired: last_polled }
}

/// Decides when the sensor is polled: every [`POLLING_INTERVAL`] seconds.
pub struct Sensor {
    polling: PeriodicGate,
}

impl View for Sensor {
    type V = Instant;

    /// The instant at which the sensor was last polled.
    closed spec fn view(&self) -> Instant {
        self.polling@.last_fired
    }
}

impl Sensor {
    #[verifier::type_invariant]
    spec fn interval_is_fixed(self) -> bool {
        self.polling@.interval == POLLING_INTERVAL
    }

    /// A sensor that was set up at `now`; the first poll is due one
    /// interval later.
    pub fn new(now: &Instant) -> (sensor: Sensor)
        ensures
            sensor@ == *now,
    {
        Sensor { polling: PeriodicGate::new(POLLING_INTERVAL, *now) }
    }

    /// Whether the sensor is to be polled at `now`. If so, the next poll
    /// is due one interval after `now`, whatever comes of this one.
    pub fn poll(&mut self, now: &Instant) -> (due: bool)
        ensures
            due == polling_gate(old(self)@).is_due(*now),
            final(self)@ == polling_gate(old(self)@).asked(*now).last_fired,
    {
        proof {
            use_type_invariant(&*self);
        }
        self.polling.due(now)
    }
}

} // verus!
