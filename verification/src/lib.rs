//! Control core of a small environmental monitor.
//!
//! The device reads temperature, humidity, pressure and gas resistance on a
//! schedule, sounds a buzzer when the temperature leaves a comfortable band,
//! rotates a small display through four views, appends a record to a log on
//! a storage card every quarter of an hour, and shows its own health. All
//! of it hangs on one counter of seconds and runs in one loop that is woken
//! by interrupts.
//!
//! This crate holds the decisions of that device, each with its contract:
//! - [`system_clock`] and [`time`]: the counter of seconds and its readings;
//! - [`atomic_button_state`]: the flag between the button interrupt and the
//!   loop;
//! - [`gate`]: the periodic gate that paces every timed task;
//! - [`alarm`], [`view_mode_switcher`], [`system_status`]: the alarm, the
//!   rotation of the views, and the health snapshot;
//! - [`sensor`], [`file_system`], [`display`], [`record`], [`datetime`],
//!   [`text`]: what the loop needs to know of its peripherals, and what it
//!   writes to them;
//! - [`monitor`]: one pass of the loop, step by step.
//!
//! The peripherals themselves are driven by the firmware around this
//! library: it hands readings and events in and carries commands out.

pub mod alarm;
pub mod atomic_button_state;
pub mod datetime;
pub mod display;
pub mod file_system;
pub mod gate;
pub mod monitor;
pub mod record;
pub mod sensor;
pub mod system_clock;
pub mod system_status;
pub mod text;
pub mod time;
pub mod util;
pub mod view_mode_switcher;
