//! The control logic of a vehicle dashboard simulator: the gear shifter, the
//! engine's power and drive decisions, the per-gear response tables, the
//! keyboard controls and the telemetry store.

pub mod gear;
pub mod keys;
pub mod observer;
pub mod response;
pub mod ui;
pub mod vehicle;
pub mod web;

pub use gear::ShifterGear;
pub use vehicle::Vehicle;
