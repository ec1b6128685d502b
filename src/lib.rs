//! A personal reminder scheduler: reminders keyed by time of day, a due check
//! that never fires a reminder twice within one watermark window, and the
//! builder that assembles a schedule.

pub mod time;
pub mod reminder;
pub mod schedule;
pub mod clock;
pub mod notifier;
pub mod laws;
pub mod interface;
