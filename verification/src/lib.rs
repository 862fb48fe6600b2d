//! Driver for the IS31FL3193, a three-channel LED controller on an I2C bus.
//!
//! Every operation of the driver is a fixed sequence of register writes, each
//! a frame of two bytes. The bus is any [`Transport`]; nothing is assumed of
//! what it answers. The driver keeps, as ghost state, a record of every write
//! it has handed to the bus. The contracts are stated over that record: which
//! frames an operation writes, in which order, where it stops when the bus
//! reports a failure, and which error it then returns.

pub mod command;
pub mod driver;
pub mod levels;
pub mod mode;
pub mod sequence;
pub mod transport;

pub use command::Command;
pub use driver::{ADPin, IS31FL3193Error, IS31FL3193};
pub use levels::{Intensity, T0, T1, T2, T3, T4};
pub use mode::{BreathingMode, Channel, Marking, Mode};
pub use transport::{Transfer, Transport};
