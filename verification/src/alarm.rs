//! The alarm: a buzzer that sounds while monitoring is enabled and the
//! temperature lies outside the comfortable band.

use vstd::prelude::*;
use crate::sensor::SensorReading;
use crate::util::{celsius_to_fahrenheit, fahrenheit};

verus! {

/// What the status view shows of the alarm.
#[derive(Copy, Clone, Eq, PartialEq, Structural, Ord, PartialOrd, Hash, Debug)]
pub enum AlarmStatus {
    /// Alarm is not actively monitoring
    NotMonitoring,
    /// Alarm is on
    On,
    /// Alarm is off
    Off,
}

impl Default for AlarmStatus {
    fn default() -> (status: AlarmStatus)
        ensures
            status == AlarmStatus::Off,
    {
        AlarmStatus::Off
    }
}

impl AlarmStatus {
    /// The letter that stands for the status: `X` while not monitoring, `Y`
    /// while the alarm sounds, `N` while it is silent.
    pub open spec fn text_spec(self) -> Seq<char> {
        match self {
            AlarmStatus::NotMonitoring => seq!['X'],
            AlarmStatus::On => seq!['Y'],
            AlarmStatus::Off => seq!['N'],
        }
    }

    pub fn text(&self) -> (s: &'static str)
        ensures
            s@ == self.text_spec(),
    {
        proof {
            reveal_strlit("X");
            reveal_strlit("Y");
            reveal_strlit("N");
        }
        match self {
            AlarmStatus::NotMonitoring => "X",
            AlarmStatus::On => "Y",
            AlarmStatus::Off => "N",
        }
    }
}

/// What the firmware has to do with the buzzer's output after a step of
/// the alarm.
#[derive(Copy, Clone, Eq, PartialEq, Structural, Hash, Debug)]
pub enum BuzzerCommand {
    /// Switch the output on.
    Enable,
    /// Switch the output off.
    Disable,
}

/// Lower end of the comfortable band, in thousandths of a degree
/// Fahrenheit. [68, 72] °F ([20, 22.2] °C) is ideal.
pub const TEMP_F_MIN: i32 = 66_000;

/// Upper end of the comfortable band, in thousandths of a degree
/// Fahrenheit.
pub const TEMP_F_MAX: i32 = 74_000;

/// Wait this many seconds after boot before checking the temperature (if
/// monitoring is enabled): ten minutes.
pub const WARM_UP_DELAY: u32 = 600;

/// Whether a temperature, in thousandths of a degree Fahrenheit, lies in
/// the comfortable band. Both ends belong to the band.
pub open spec fn in_comfort_band(milli_fahrenheit: int) -> bool {
    TEMP_F_MIN <= milli_fahrenheit <= TEMP_F_MAX
}

/// The alarm as the rest of the device sees it.
pub struct AlarmState {
    /// Whether temperatures are checked at all.
    pub monitoring: bool,
    /// Whether the buzzer sounds.
    pub on: bool,
}

impl AlarmState {
    /// The buzzer never sounds while monitoring is disabled.
    pub open spec fn wf(self) -> bool {
        !self.monitoring ==> !self.on
    }

    pub open spec fn status(self) -> AlarmStatus {
        if self.monitoring {
            if self.on {
                AlarmStatus::On
            } else {
                AlarmStatus::Off
            }
        } else {
            AlarmStatus::NotMonitoring
        }
    }

    /// What the buzzer's output has to be in this state.
    pub open spec fn command(self) -> BuzzerCommand {
        if self.on {
            BuzzerCommand::Enable
        } else {
            BuzzerCommand::Disable
        }
    }

    /// Monitoring is switched on or off: either way the buzzer falls
    /// silent first.
    pub open spec fn monitoring_set(self, enabled: bool) -> AlarmState {
        AlarmState { monitoring: enabled, on: false }
    }

    /// The buzzer is driven by hand. It cannot be made to sound while
    /// monitoring is disabled.
    pub open spec fn driven(self, on: bool) -> AlarmState {
        AlarmState { monitoring: self.monitoring, on: on && self.monitoring }
    }

    /// A temperature, in thousandths of a degree Fahrenheit, is checked:
    /// while monitoring, the buzzer sounds exactly if the temperature lies
    /// outside the band; while not monitoring, it is silent.
    pub open spec fn checked(self, milli_fahrenheit: int) -> AlarmState {
        AlarmState {
            monitoring: self.monitoring,
            on: self.monitoring && !in_comfort_band(milli_fahrenheit),
        }
    }
}

/// The alarm and the duty cycle of its buzzer.
pub struct Alarm {
    duty: u16,
    monitoring: bool,
    on: bool,
}

impl View for Alarm {
    type V = AlarmState;

    closed spec fn view(&self) -> AlarmState {
        AlarmState { monitoring: self.monitoring, on: self.on }
    }
}

impl Alarm {
    #[verifier::type_invariant]
    spec fn silent_unless_monitoring(self) -> bool {
        !self.monitoring ==> !self.on
    }

    /// The duty cycle that the buzzer is run with. It is chosen once, when
    /// the alarm is made, and never varied: only on and off matter.
    pub closed spec fn duty_spec(&self) -> u16 {
        self.duty
    }

    /// An alarm for a buzzer whose output takes duty cycles up to
    /// `max_duty`. It monitors, is silent, and runs the buzzer at half
    /// scale.
    pub fn new(max_duty: u16) -> (alarm: Alarm)
        ensures
            alarm@ == (AlarmState { monitoring: true, on: false }),
            alarm@.wf(),
            alarm.duty_spec() == max_duty / 2,
    {
        Alarm { duty: max_duty / 2, monitoring: true, on: false }
    }

    pub fn duty(&self) -> (duty: u16)
        ensures
            duty == self.duty_spec(),
    {
        self.duty
    }

    pub fn monitoring(&self) -> (monitoring: bool)
        ensures
            monitoring == self@.monitoring,
    {
        self.monitoring
    }

    /// Whether the buzzer sounds. It never does while monitoring is
    /// disabled.
    pub fn is_on(&self) -> (on: bool)
        ensures
            on == self@.on,
            self@.wf(),
    {
        proof {
            use_type_invariant(self);
        }
        self.on
    }

    pub fn set_monitoring(&mut self, monitoring: bool) -> (command: BuzzerCommand)
        ensures
            final(self)@ == old(self)@.monitoring_set(monitoring),
            final(self).duty_spec() == old(self).duty_spec(),
            command == BuzzerCommand::Disable,
            !final(self)@.on,
    {
        let command = self.set_on_off(false);
        self.monitoring = monitoring;
        command
    }

    pub fn set_on_off(&mut self, on: bool) -> (command: BuzzerCommand)
        ensures
            final(self)@ == old(self)@.driven(on),
            final(self).duty_spec() == old(self).duty_spec(),
            command == final(self)@.command(),
            final(self)@.wf(),
    {
        if on && self.monitoring {
            self.on = true;
            BuzzerCommand::Enable
        } else {
            self.on = false;
            BuzzerCommand::Disable
        }
    }

    pub fn status(&self) -> (status: AlarmStatus)
        ensures
            status == self@.status(),
            self@.wf(),
    {
        proof {
            use_type_invariant(self);
        }
        if self.monitoring {
            if self.on {
                AlarmStatus::On
            } else {
                AlarmStatus::Off
            }
        } else {
            AlarmStatus::NotMonitoring
        }
    }

    /// Checks a reading against the comfortable band. The caller sees to it
    /// that the warm-up delay has passed since boot.
    pub fn check_temperature(&mut self, data: &SensorReading) -> (command: BuzzerCommand)
        ensures
            final(self)@ == old(self)@.checked(fahrenheit(data.temperature as int)),
            final(self)@.on <==> old(self)@.monitoring && !(1889 <= data.temperature <= 2333),
            final(self).duty_spec() == old(self).duty_spec(),
            command == final(self)@.command(),
            final(self)@.wf(),
    {
        proof {
            lemma_band_in_celsius(data.temperature as int);
        }
        if self.monitoring {
            let temp_f: i32 = celsius_to_fahrenheit(data.temperature);
            if !in_band(temp_f) {
                self.set_on_off(true)
            } else {
                self.set_on_off(false)
            }
        } else {
            self.set_on_off(false)
        }
    }
}

/// Whether a temperature, in thousandths of a degree Fahrenheit, lies in
/// the comfortable band, ends included.
pub fn in_band(milli_fahrenheit: i32) -> (inside: bool)
    ensures
        inside == in_comfort_band(milli_fahrenheit as int),
{
    TEMP_F_MIN <= milli_fahrenheit && milli_fahrenheit <= TEMP_F_MAX
}

/// The band in degrees Celsius: a temperature in hundredths of a degree
/// Celsius lies in the band exactly if it is 18.89 °C or more and 23.33 °C
/// or less.
pub proof fn lemma_band_in_celsius(centi_celsius: int)
    ensures
        in_comfort_band(fahrenheit(centi_celsius)) <==> 1889 <= centi_celsius <= 2333,
{
}

/// The buzzer never sounds while monitoring is disabled: every step of the
/// alarm ends in such a state, whatever state it starts from. Switching
/// monitoring off silences a sounding buzzer, and while monitoring is off
/// no temperature makes it sound.
pub proof fn lemma_silent_unless_monitoring(
    state: AlarmState,
    enabled: bool,
    on: bool,
    milli_fahrenheit: int,
)
    ensures
        state.monitoring_set(enabled).wf(),
        state.driven(on).wf(),
        state.checked(milli_fahrenheit).wf(),
        !state.monitoring_set(enabled).on,
        state.monitoring_set(false).status() == AlarmStatus::NotMonitoring,
        !state.monitoring ==> !state.checked(milli_fahrenheit).on,
        state.monitoring ==> (state.checked(milli_fahrenheit).on <==> (milli_fahrenheit
            < TEMP_F_MIN || milli_fahrenheit > TEMP_F_MAX)),
{
}

} // verus!
