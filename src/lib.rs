//! Register protocol engine and step sequencer for a TMC2209 stepper-motor
//! controller on a half-duplex serial bus.
//!
//! The library performs no I/O: it builds and checks frames, decides what the
//! next bus transaction is, and tracks the motion state. The caller moves the
//! bytes and drives the GPIO lines.
pub mod codec;
pub mod current;
pub mod error;
pub mod motion_controller;
pub mod protocol;
pub mod registers;
pub mod status;
pub mod stepper;
pub mod tmc2209;
pub mod transport;
pub mod uart;
