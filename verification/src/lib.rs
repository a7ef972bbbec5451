//! Clock synchronisation for a Bluetooth Low Energy wearable.
//!
//! The crate holds the decisions of a synchronisation run and the wire format
//! of the time that is written; it performs no radio or console I/O itself.
//! A driver performs each [`protocol::Action`] that the state machine in
//! [`sync`] asks for and reports what happened as a [`protocol::Event`].
//!
//! [`model`] states what the machine does as mathematics and [`history`] what
//! follows for whole runs: a peripheral is written to only on a confirmed
//! connection and at a discovered time characteristic, every confirmed
//! connection is disconnected again, and every run ends.

pub mod calendar;
pub mod encoder;
pub mod gatt;
pub mod history;
pub mod matcher;
pub mod model;
pub mod protocol;
pub mod scanner;
pub mod sync;
