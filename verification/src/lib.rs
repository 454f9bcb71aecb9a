//! A break reminder's notification scheduler.
//!
//! The scheduler decides, tick by tick, when the next "take a break" reminder
//! is due. It keeps the last reminder it issued, an optional pause window and
//! the interval between reminders, and it is driven by the messages that the
//! presentation side sends back. Its behaviour is stated over a small
//! mathematical model and proved by Verus.
//!
//! - [`scheduler`] is the model: the state machine as specification.
//! - [`laws`] holds what is proved of every scheduler.
//! - [`notifier`] is the executable scheduler, with [`break_reminder`],
//!   [`pause`], [`message`] and [`time`] as its parts.
//! - [`report`] writes the scheduler's state as log lines.
//! - [`args`] reads the interval from the program's arguments.
//! - [`presenter`] holds the rules of the presentation side that need no
//!   window.

pub mod args;
pub mod break_reminder;
pub mod laws;
pub mod message;
pub mod notifier;
pub mod pause;
pub mod presenter;
pub mod report;
pub mod scheduler;
pub mod time;
