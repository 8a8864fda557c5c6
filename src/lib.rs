//! Driver for HD44780-family character displays on a parallel GPIO bus.
//!
//! The driver never touches hardware itself: every operation appends the pin
//! and delay steps it needs to a log, which the platform drains with
//! `LiquidCrystal::take_ops` and performs in order.
#![allow(non_snake_case)]

pub mod bus;
pub mod laws;
pub mod liquid_crystal;
pub mod serial;
