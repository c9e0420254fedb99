//! Driver for the M24C64 and M24C64-D serial EEPROM, with verified address
//! translation and command framing.

pub mod bus;
pub mod device;
pub mod framing;
pub mod memory;

pub use bus::{Bus, Error};
pub use device::{Config, IdentificationPage, NoIdentificationPage, M24C64};
pub use framing::ADDRESS_LAST;
