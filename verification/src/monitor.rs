//! One pass of the main loop, decision by decision.
//!
//! The firmware wakes on any interrupt, feeds the watchdog and then walks
//! through the steps of [`Monitor`] in the order in which they stand here.
//! Each step takes what the firmware has read from a peripheral and says
//! what it has to do next.

use vstd::prelude::*;
use crate::alarm::{Alarm, AlarmState, BuzzerCommand, WARM_UP_DELAY};
use crate::datetime::DateTime;
use crate::display::{brightness_at, Brightness, Display, DisplayView};
use crate::file_system::{FileSystem, StorageError, StorageState};
use crate::record::Record;
use crate::sensor::{polling_gate, Sensor, SensorEvent, SensorReading};
use crate::system_status::SystemStatus;
use crate::text::{line_text, Line};
use crate::time::Instant;
use crate::util::fahrenheit;
use crate::view_mode_switcher::{RotationState, ViewMode, ViewModeSwitcher};

verus! {

/// What the firmware has to do with the storage card.
#[derive(Copy, Clone, Eq, PartialEq, Structural, Hash, Debug)]
pub enum StorageCommand {
    /// Leave the card alone.
    Nothing,
    /// Bring the card up, read its size and report with
    /// [`Monitor::storage_init_done`].
    Init,
    /// Release the card.
    Deinit,
}

/// What a fresh reading leads to.
pub struct ReadingOutcome {
    /// The warm-up delay was found to be over with this reading.
    pub warmed_up: bool,
    /// What to do with the buzzer, if the reading was checked.
    pub buzzer: Option<BuzzerCommand>,
    /// The line to append to the log, if one is due. Report what came of
    /// the write with [`Monitor::write_done`].
    pub record: Option<Line>,
}

/// All that the main loop keeps from one pass to the next.
pub struct MonitorState {
    pub alarm: AlarmState,
    /// The instant at which the sensor was last polled.
    pub last_polled: Instant,
    pub storage: StorageState,
    pub status: SystemStatus,
    pub views: RotationState,
    /// The instant at which the loop was started.
    pub boot_time: Instant,
    /// The last reading that the sensor gave.
    pub reading: Option<SensorReading>,
    /// Date and time as read in this pass, if they could be read.
    pub datetime: Option<DateTime>,
    /// The brightness that the driver last set the display to.
    pub brightness: Brightness,
}

impl MonitorState {
    /// What to do with the card, given whether one is in the slot: bring
    /// it up if it is there, not ready yet and has not failed before;
    /// release it if it is gone and was ready.
    pub open spec fn storage_command(self, connected: bool) -> StorageCommand {
        if connected {
            if !self.status.storage_error && !self.storage.is_init() {
                StorageCommand::Init
            } else {
                StorageCommand::Nothing
            }
        } else {
            if self.storage.is_init() {
                StorageCommand::Deinit
            } else {
                StorageCommand::Nothing
            }
        }
    }

    /// The state after the slot was probed at `now`. Whenever no card is
    /// in the slot, all that was known of the card is forgotten; if one
    /// was ready, the status view comes up.
    pub open spec fn storage_probed(self, connected: bool, now: Instant) -> MonitorState {
        if connected {
            MonitorState {
                status: SystemStatus { storage_connected: true, ..self.status },
                ..self
            }
        } else {
            MonitorState {
                storage: StorageState { card: None },
                views: if self.storage.is_init() {
                    self.views.forced(ViewMode::SystemStatus, now)
                } else {
                    self.views
                },
                status: SystemStatus {
                    storage_connected: false,
                    ..self.status.storage_cleared()
                },
                ..self
            }
        }
    }

    /// The state after the firmware tried to bring the card up at `now`
    /// and got its size, or failed. Either way the status view comes up.
    /// Where no card was to be brought up, nothing changes.
    pub open spec fn storage_brought_up(
        self,
        card_size_bytes: Option<u64>,
        now: Instant,
    ) -> MonitorState {
        if self.status.storage_connected && self.storage_command(true) == StorageCommand::Init {
            MonitorState {
                storage: match card_size_bytes {
                    Some(size) => self.storage.initialized(now, size),
                    None => self.storage,
                },
                status: SystemStatus {
                    storage_error: card_size_bytes is None,
                    ..self.status
                },
                views: self.views.forced(ViewMode::SystemStatus, now),
                ..self
            }
        } else {
            self
        }
    }

    /// The state after the button flag was served at `now`: a press
    /// toggles monitoring, which silences the buzzer, and brings the
    /// status view up.
    pub open spec fn button_served(self, pressed: bool, now: Instant) -> MonitorState {
        if pressed {
            MonitorState {
                alarm: self.alarm.monitoring_set(!self.alarm.monitoring),
                views: self.views.forced(ViewMode::SystemStatus, now),
                ..self
            }
        } else {
            self
        }
    }

    /// Whether the sensor is polled at `now`.
    pub open spec fn poll_due(self, now: Instant) -> bool {
        polling_gate(self.last_polled).is_due(now)
    }

    /// The state after the sensor's turn was checked at `now`.
    pub open spec fn poll_asked(self, now: Instant) -> MonitorState {
        if self.poll_due(now) {
            MonitorState { last_polled: now, ..self }
        } else {
            self
        }
    }

    /// Whether the alarm is warmed up once a reading arrives at `now`: it
    /// was before, or the warm-up delay has passed since boot.
    pub open spec fn warmed_up_at(self, now: Instant) -> bool {
        self.status.alarm_warmed_up || now.at_least_since(self.boot_time, WARM_UP_DELAY)
    }

    /// Whether a reading that arrives is offered to the storage: a card is
    /// ready, and there is a date and time to stamp the record with.
    pub open spec fn record_offered(self) -> bool {
        self.storage.is_init() && self.datetime is Some
    }

    /// The record that is written for a reading that arrives at `now`, if
    /// one is written.
    pub open spec fn record_due(self, data: SensorReading, now: Instant) -> Option<Record> {
        if self.record_offered() && self.storage.write_due(now) {
            Some(Record::of(self.datetime->Some_0, data))
        } else {
            None
        }
    }

    /// The state after the sensor answered at `now`. Only a new
    /// measurement changes anything: it is kept for the display; once the
    /// alarm is warmed up it is checked against the band; and it is
    /// offered to the storage.
    pub open spec fn reading_taken(self, event: SensorEvent, now: Instant) -> MonitorState {
        match event.fresh_spec() {
            None => self,
            Some(data) => MonitorState {
                alarm: if self.warmed_up_at(now) {
                    self.alarm.checked(fahrenheit(data.temperature as int))
                } else {
                    self.alarm
                },
                storage: if self.record_offered() {
                    self.storage.write_asked(now)
                } else {
                    self.storage
                },
                status: SystemStatus { alarm_warmed_up: self.warmed_up_at(now), ..self.status },
                reading: Some(data),
                ..self
            },
        }
    }

    /// The state after a write to the card ended. A written record is
    /// counted. A failed write marks the storage as faulty, and a full
    /// card also as full; both marks stay until the card is taken out.
    pub open spec fn write_ended(self, result: Result<(), StorageError>) -> MonitorState {
        MonitorState {
            status: match result {
                Ok(_) => self.status.record_added(),
                Err(e) => SystemStatus {
                    storage_error: true,
                    storage_full: self.status.storage_full || e == StorageError::NotEnoughSpace,
                    ..self.status
                },
            },
            ..self
        }
    }

    /// The state after the status was brought up to date.
    pub open spec fn status_refreshed(self, uptime_sec: u32) -> MonitorState {
        MonitorState {
            status: SystemStatus { alarm: self.alarm.status(), uptime_sec, ..self.status },
            ..self
        }
    }

    /// The brightness that the driver has to be asked for, if any: the one
    /// that belongs to the hour of the day, where the display is not set
    /// to it already. Without a time of day the display stays as it is.
    pub open spec fn brightness_change(self) -> Option<Brightness> {
        match self.datetime {
            Some(datetime) => if brightness_at(datetime.time.hour() as int) != self.brightness {
                Some(brightness_at(datetime.time.hour() as int))
            } else {
                None
            },
            None => None,
        }
    }

    /// The state after the driver has set the display to the given
    /// brightness.
    pub open spec fn brightness_taken(self, brightness: Brightness) -> MonitorState {
        MonitorState { brightness, ..self }
    }

    /// The view of the given mode with its data, if there is data for it.
    pub open spec fn view_of(self, mode: ViewMode) -> Option<DisplayView> {
        match mode {
            ViewMode::Time => match self.datetime {
                Some(datetime) => Some(DisplayView::Time { data: datetime.time }),
                None => None,
            },
            ViewMode::Date => match self.datetime {
                Some(datetime) => Some(DisplayView::Date { data: datetime.date }),
                None => None,
            },
            ViewMode::SensorReadings => match self.reading {
                Some(data) => Some(DisplayView::SensorReadings { data }),
                None => None,
            },
            ViewMode::SystemStatus => Some(DisplayView::SystemStatus { data: self.status }),
        }
    }

    /// The state after the display was served at `now`: the rotation has
    /// moved on if the dwell time was over, and a view without data was
    /// given a new dwell time instead of being drawn.
    pub open spec fn view_served(self, now: Instant) -> MonitorState {
        let views = self.views.asked(now);
        MonitorState {
            views: if self.view_of(views.mode) is Some {
                views
            } else {
                views.skipped(now)
            },
            ..self
        }
    }

    /// What holds of the loop's state at all times: the buzzer is silent
    /// unless monitoring is enabled; a card is only ready while one is in
    /// the slot; and a card that is marked as full is marked as faulty.
    pub open spec fn wf(self) -> bool {
        &&& self.alarm.wf()
        &&& self.storage.is_init() ==> self.status.storage_connected
        &&& self.status.storage_full ==> self.status.storage_error
    }
}

/// The decisions of the main loop.
pub struct Monitor {
    alarm: Alarm,
    sensor: Sensor,
    fs: FileSystem,
    status: SystemStatus,
    views: ViewModeSwitcher,
    boot_time: Instant,
    reading: Option<SensorReading>,
    datetime: Option<DateTime>,
    display: Display,
}

impl View for Monitor {
    type V = MonitorState;

    closed spec fn view(&self) -> MonitorState {
        MonitorState {
            alarm: self.alarm@,
            last_polled: self.sensor@,
            storage: self.fs@,
            status: self.status,
            views: self.views@,
            boot_time: self.boot_time,
            reading: self.reading,
            datetime: self.datetime,
            brightness: self.display@,
        }
    }
}

impl Monitor {
    /// The loop's state at boot, with the alarm as the start-up code left
    /// it: no card, no reading, the first view on the display.
    pub fn new(alarm: Alarm, now: Instant) -> (monitor: Monitor)
        ensures
            monitor@ == (MonitorState {
                alarm: alarm@,
                last_polled: now,
                storage: StorageState { card: None },
                status: SystemStatus::initial(),
                views: RotationState { mode: ViewMode::Time, last_transition: now },
                boot_time: now,
                reading: None,
                datetime: None,
                brightness: Brightness::Brightest,
            }),
            monitor.duty_spec() == alarm.duty_spec(),
    {
        Monitor {
            alarm,
            sensor: Sensor::new(&now),
            fs: FileSystem::new(),
            status: SystemStatus::default(),
            views: ViewModeSwitcher::new(now),
            boot_time: now,
            reading: None,
            datetime: None,
            display: Display::new(),
        }
    }

    /// The duty cycle that the buzzer is run with. It is the alarm's, and
    /// no step of the loop changes it.
    pub closed spec fn duty_spec(&self) -> u16 {
        self.alarm.duty_spec()
    }

    pub fn duty(&self) -> (duty: u16)
        ensures
            duty == self.duty_spec(),
    {
        self.alarm.duty()
    }

    pub fn status(&self) -> (status: SystemStatus)
        ensures
            status == self@.status,
    {
        self.status
    }

    pub fn alarm(&self) -> (alarm: &Alarm)
        ensures
            alarm@ == self@.alarm,
            alarm.duty_spec() == self.duty_spec(),
    {
        &self.alarm
    }

    /// The last reading that the sensor gave.
    pub fn reading(&self) -> (reading: Option<SensorReading>)
        ensures
            reading == self@.reading,
    {
        self.reading
    }

    /// The view on display.
    pub fn view_mode(&self) -> (mode: ViewMode)
        ensures
            mode == self@.views.mode,
    {
        self.views.current()
    }

    pub fn storage_is_init(&self) -> (init: bool)
        ensures
            init == self@.storage.is_init(),
    {
        self.fs.is_init()
    }

    /// First step: the card slot was probed.
    pub fn storage_presence(&mut self, connected: bool, now: &Instant) -> (command:
        StorageCommand)
        ensures
            command == old(self)@.storage_command(connected),
            final(self)@ == old(self)@.storage_probed(connected, *now),
            final(self).duty_spec() == old(self).duty_spec(),
    {
        let command;
        if connected {
            if !self.status.storage_error && !self.fs.is_init() {
                command = StorageCommand::Init;
            } else {
                command = StorageCommand::Nothing;
            }
        } else {
            if self.fs.deinit() {
                self.views.set_mode(ViewMode::SystemStatus, now);
                command = StorageCommand::Deinit;
            } else {
                command = StorageCommand::Nothing;
            }
            self.status.clear_storage_status();
        }
        self.status.storage_connected = connected;
        command
    }

    /// Follows [`StorageCommand::Init`]: the firmware has brought the card
    /// up and read its size, or has failed to.
    pub fn storage_init_done(&mut self, card_size_bytes: Option<u64>, now: &Instant)
        ensures
            final(self)@ == old(self)@.storage_brought_up(card_size_bytes, *now),
            final(self).duty_spec() == old(self).duty_spec(),
    {
        if !self.status.storage_connected || self.status.storage_error || self.fs.is_init() {
            return;
        }
        match card_size_bytes {
            Some(size) => {
                self.fs.init(now, size);
            },
            None => {
                self.status.storage_error = true;
            },
        }
        self.views.set_mode(ViewMode::SystemStatus, now);
    }

    /// Second step: the button flag was read and cleared. Returns what to
    /// do with the buzzer if the button was pressed.
    pub fn button(&mut self, pressed: bool, now: &Instant) -> (command: Option<BuzzerCommand>)
        ensures
            final(self)@ == old(self)@.button_served(pressed, *now),
            final(self).duty_spec() == old(self).duty_spec(),
            command == if pressed {
                Some(BuzzerCommand::Disable)
            } else {
                None
            },
    {
        if pressed {
            let enable = !self.alarm.monitoring();
            let command = self.alarm.set_monitoring(enable);
            self.views.set_mode(ViewMode::SystemStatus, now);
            Some(command)
        } else {
            None
        }
    }

    /// Third step: the real-time clock was read, or could not be read.
    pub fn wall_clock(&mut self, datetime: Option<DateTime>)
        ensures
            final(self)@ == (MonitorState { datetime, ..old(self)@ }),
            final(self).duty_spec() == old(self).duty_spec(),
    {
        self.datetime = datetime;
    }

    /// Fourth step: whether to poll the sensor now. If so, report what
    /// came of it with [`Monitor::sensor_polled`].
    pub fn poll_sensor(&mut self, now: &Instant) -> (due: bool)
        ensures
            due == old(self)@.poll_due(*now),
            final(self)@ == old(self)@.poll_asked(*now),
            final(self).duty_spec() == old(self).duty_spec(),
    {
        self.sensor.poll(now)
    }

    /// Follows a poll of the sensor.
    pub fn sensor_polled(&mut self, event: SensorEvent, now: &Instant) -> (outcome:
        ReadingOutcome)
        ensures
            final(self)@ == old(self)@.reading_taken(event, *now),
            final(self).duty_spec() == old(self).duty_spec(),
            outcome.warmed_up == (event.fresh_spec() is Some && !old(self)@.status.alarm_warmed_up
                && final(self)@.status.alarm_warmed_up),
            outcome.buzzer == if event.fresh_spec() is Some && old(self)@.warmed_up_at(*now) {
                Some(final(self)@.alarm.command())
            } else {
                None
            },
            match event.fresh_spec() {
                Some(data) => match old(self)@.record_due(data, *now) {
                    Some(record) => outcome.record matches Some(line) && line_text(line)
                        == record.csv_text(),
                    None => outcome.record is None,
                },
                None => outcome.record is None,
            },
    {
        let data = match event.fresh() {
            Some(data) => data,
            None => {
                return ReadingOutcome { warmed_up: false, buzzer: None, record: None };
            },
        };
        // Check the alarm if monitoring and warm-up period has elapsed
        let mut warmed_up = false;
        if !self.status.alarm_warmed_up {
            if now.has_elapsed_since(&self.boot_time, WARM_UP_DELAY) {
                self.status.alarm_warmed_up = true;
                warmed_up = true;
            }
        }
        let buzzer = if self.status.alarm_warmed_up {
            Some(self.alarm.check_temperature(&data))
        } else {
            None
        };
        let mut record: Option<Line> = None;
        if self.fs.is_init() {
            if let Some(datetime) = self.datetime {
                if let Ok(line) = Record::new(&datetime, &data).to_csv_line() {
                    if self.fs.write(now) {
                        record = Some(line);
                    }
                }
            }
        }
        self.reading = Some(data);
        ReadingOutcome { warmed_up, buzzer, record }
    }

    /// Follows the write of a record.
    pub fn write_done(&mut self, result: Result<(), StorageError>)
        ensures
            final(self)@ == old(self)@.write_ended(result),
            final(self).duty_spec() == old(self).duty_spec(),
    {
        match result {
            Ok(()) => {
                self.status.inc_records();
            },
            Err(e) => {
                self.status.storage_error = true;
                if let StorageError::NotEnoughSpace = e {
                    self.status.storage_full = true;
                }
            },
        }
    }

    /// Fifth step: the status is brought up to date.
    pub fn refresh_status(&mut self, uptime_sec: u32)
        ensures
            final(self)@ == old(self)@.status_refreshed(uptime_sec),
            final(self).duty_spec() == old(self).duty_spec(),
    {
        self.status.alarm = self.alarm.status();
        self.status.uptime_sec = uptime_sec;
    }

    /// Sixth step: the brightness that the display has to be set to, if it
    /// has to change. Nothing changes here; once the driver has taken the
    /// brightness, report it with [`Monitor::brightness_set`]. As long as
    /// it has not, the same brightness is asked for again.
    pub fn update_brightness(&self) -> (change: Option<Brightness>)
        ensures
            change == self@.brightness_change(),
    {
        match self.datetime {
            Some(datetime) => self.display.update_brightness(&datetime.time),
            None => None,
        }
    }

    /// Follows a change of brightness that the driver accepted.
    pub fn brightness_set(&mut self, brightness: Brightness)
        ensures
            final(self)@ == old(self)@.brightness_taken(brightness),
            final(self).duty_spec() == old(self).duty_spec(),
    {
        self.display.brightness_set(brightness);
    }

    /// Last step: the view to draw, if there is one to draw.
    pub fn render(&mut self, now: &Instant) -> (view: Option<DisplayView>)
        ensures
            final(self)@ == old(self)@.view_served(*now),
            final(self).duty_spec() == old(self).duty_spec(),
            view == old(self)@.view_of(final(self)@.views.mode),
    {
        let mode = self.views.mode(now);
        let view = match mode {
            ViewMode::Time => match self.datetime {
                Some(datetime) => Some(DisplayView::Time { data: datetime.time }),
                None => None,
            },
            ViewMode::Date => match self.datetime {
                Some(datetime) => Some(DisplayView::Date { data: datetime.date }),
                None => None,
            },
            ViewMode::SensorReadings => match self.reading {
                Some(data) => Some(DisplayView::SensorReadings { data }),
                None => None,
            },
            ViewMode::SystemStatus => Some(DisplayView::SystemStatus { data: self.status }),
        };
        if view.is_none() {
            self.views.skip(now);
        }
        view
    }
}

/// The loop's state is sound at boot, given an alarm that is, and every
/// step keeps it so, whatever the firmware reports and in whatever order
/// it takes the steps.
pub proof fn lemma_steps_keep_state_sound(
    state: MonitorState,
    now: Instant,
    connected: bool,
    card_size_bytes: Option<u64>,
    pressed: bool,
    datetime: Option<DateTime>,
    event: SensorEvent,
    result: Result<(), StorageError>,
    uptime_sec: u32,
    brightness: Brightness,
)
    requires
        state.wf(),
    ensures
        state.storage_probed(connected, now).wf(),
        state.storage_brought_up(card_size_bytes, now).wf(),
        state.button_served(pressed, now).wf(),
        (MonitorState { datetime, ..state }).wf(),
        state.poll_asked(now).wf(),
        state.reading_taken(event, now).wf(),
        state.write_ended(result).wf(),
        state.status_refreshed(uptime_sec).wf(),
        state.brightness_taken(brightness).wf(),
        state.view_served(now).wf(),
{
}

} // verus!
