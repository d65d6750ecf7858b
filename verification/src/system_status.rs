//! The health of the device as the status view shows it.

use vstd::prelude::*;
use crate::alarm::AlarmStatus;

verus! {

/// A snapshot of the device's health. The main loop brings it up to date
/// on every pass.
#[derive(Copy, Clone, Eq, PartialEq, Structural, Ord, PartialOrd, Hash, Debug)]
pub struct SystemStatus {
    pub uptime_sec: u32,
    pub alarm: AlarmStatus,
    pub alarm_warmed_up: bool,
    pub record_count: u32,
    pub storage_connected: bool,
    pub storage_full: bool,
    pub storage_error: bool,
}

impl Default for SystemStatus {
    fn default() -> (status: SystemStatus)
        ensures
            status == SystemStatus::initial(),
    {
        SystemStatus {
            uptime_sec: 0,
            alarm: AlarmStatus::Off,
            alarm_warmed_up: false,
            record_count: 0,
            storage_connected: false,
            storage_full: false,
            storage_error: false,
        }
    }
}

impl SystemStatus {
    /// The status right after boot.
    pub open spec fn initial() -> SystemStatus {
        SystemStatus {
            uptime_sec: 0,
            alarm: AlarmStatus::Off,
            alarm_warmed_up: false,
            record_count: 0,
            storage_connected: false,
            storage_full: false,
            storage_error: false,
        }
    }

    /// The status once the storage is gone: what was known of the card is
    /// forgotten, everything else stays.
    pub open spec fn storage_cleared(self) -> SystemStatus {
        SystemStatus { storage_full: false, storage_error: false, record_count: 0, ..self }
    }

    /// The status with one more record written. The count stops at the
    /// largest number it can hold.
    pub open spec fn record_added(self) -> SystemStatus {
        SystemStatus {
            record_count: if self.record_count < u32::MAX {
                (self.record_count + 1) as u32
            } else {
                u32::MAX
            },
            ..self
        }
    }

    /// Call when storage is disconnected
    pub fn clear_storage_status(&mut self)
        ensures
            *final(self) == old(self).storage_cleared(),
            final(self).record_count == 0,
            !final(self).storage_full,
            !final(self).storage_error,
            final(self).storage_connected == old(self).storage_connected,
            final(self).uptime_sec == old(self).uptime_sec,
            final(self).alarm == old(self).alarm,
            final(self).alarm_warmed_up == old(self).alarm_warmed_up,
    {
        self.storage_full = false;
        self.storage_error = false;
        self.record_count = 0;
    }

    pub fn inc_records(&mut self)
        ensures
            *final(self) == old(self).record_added(),
            old(self).record_count < u32::MAX ==> final(self).record_count == old(
                self,
            ).record_count + 1,
            old(self).record_count == u32::MAX ==> final(self).record_count == u32::MAX,
    {
        self.record_count = self.record_count.saturating_add(1);
    }
}

} // verus!
