//! Driver core for a GMR angle sensor reached over a synchronous serial bus.
//!
//! The crate translates named sensor registers into bus transactions,
//! validates the safety word the chip returns with every transaction,
//! verifies an 8-bit checksum over the exchanged bytes, and decodes the
//! narrow two's-complement fields the chip embeds in its 16-bit words.
//! The bus itself is reached through the [`SpiBus`] and [`ChipSelect`]
//! traits, so any blocking full-duplex transport can sit underneath; the
//! [`SimBus`] and [`SimPin`] pair exercises the driver without hardware.

pub mod bus;
pub mod codec;
pub mod crc;
pub mod driver;
pub mod regs;
pub mod sim;

pub use bus::{ChipSelect, SpiBus, SpiMode, spi_mode};
pub use codec::{from_i15_to_i16, from_i9_to_i16};
pub use crc::compute_crc;
pub use driver::{Error, Tle5012};
pub use regs::{Address, ReadCmd, ReadUpdCmd, WriteCmd};
pub use sim::{SimBus, SimError, SimPin};
