//! Logic of a small digital storage oscilloscope for an STM32F3 board.
//!
//! Everything here is a function from plain values to plain values: register
//! words, timer settings, pixel rows and lists of actions. The firmware that
//! owns the peripherals reads the hardware, asks this library what to do, and
//! carries it out.

pub mod capture;
pub mod led;
pub mod st7735;
pub mod siggen;
pub mod tick;
pub mod sweep;
pub mod sysclk;
