//! Driver for the NCP5623 three-channel LED controller, a write-only chip on an
//! I2C bus that takes one-byte commands.

pub mod command;
pub mod error;
pub mod driver;

pub use command::{accepts, encode, valid_value, Command, MAX_VALUE};
pub use error::{reported, Error};
pub use driver::{I2cWrite, Transfer, DEFAULT_ADDRESS, MAX_ADDRESS, NCP5623};
