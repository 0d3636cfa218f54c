//! A driver for the Semtech SX1261/62 LoRa modems.
//!
//! The library decides what goes over the wires and what an answer means; it
//! performs no input or output itself. A method of [`sx::SX126x`] that talks to the
//! modem returns a [`sx::call::Call`], which hands out one [`sx::bus::Step`] at a
//! time, takes in the [`sx::bus::Event`] that performing the step gave, and ends in
//! the method's result. The method that switches the antenna returns the level to
//! drive its pin to.
pub mod conf;
pub mod endian;
pub mod op;
pub mod reg;
pub mod sx;
