//! Logic of a system-tray utility that periodically fetches a short joke
//! and shows it as a desktop notification.
//!
//! The crate holds the verified core: the fixed catalog of refresh
//! intervals, an explicit model of the persisted settings, and the
//! controller state machine that the event loop drives. All I/O (the
//! tray toolkit, the HTTP fetch, the registry) stays outside, handing
//! plain values in and out.

pub mod catalog;
pub mod controller;
pub mod settings;
