//! The logic of a light-driven curtain: reading a VEML7700 ambient light sensor, deciding when
//! a servo has to close or open the curtain, and reporting over a serial port.

pub mod action;
pub mod curtain;
pub mod lamp;
pub mod line;
pub mod room;
pub mod serial;
pub mod servo;
pub mod veml7700;
