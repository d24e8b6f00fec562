//! The two capabilities the driver needs from its environment: a blocking
//! full-duplex frame transfer and a chip-select output pin.
//!
//! Both traits are plain interfaces so that any platform layer can
//! implement them over its real peripherals; [`crate::sim`] holds
//! in-memory implementations.  The driver keeps its own ghost record of
//! what it did with them, and its contracts speak of that record.

use vstd::prelude::*;

verus! {

/// A blocking full-duplex bus that exchanges one 16-bit frame per
/// transfer, most significant byte first on the wire.
///
/// A transfer either completes, returning the word received in the same
/// clock cycles as the sent one, or fails with the transport's own error.
pub trait SpiBus: Sized {
    /// The transport's own failure type.
    type BusError;

    /// Exchange one frame: send `tx`, return the word received.
    fn transfer(&mut self, tx: u16) -> Result<u16, Self::BusError>;
}

/// A digital output pin that frames bus transactions; the chip listens
/// while the pin is driven low.
pub trait ChipSelect: Sized {
    /// Drive the pin low, opening a transaction frame.
    fn set_low(&mut self);

    /// Drive the pin high, closing the transaction frame.
    fn set_high(&mut self);
}

/// Clock polarity and sampling edge for the serial bus.
///
/// Chip variants differ in the clock's idle level, so the mode is data
/// the platform layer configures its peripheral with, not a constant.
#[derive(Clone, Copy, Debug, PartialEq, Eq, Structural)]
pub struct SpiMode {
    /// Whether the clock idles high.
    pub clock_idle_high: bool,
    /// Whether data is captured on the second clock transition.
    pub capture_on_second_edge: bool,
}

/// The bus mode for a chip variant: the chip always samples on the
/// second clock transition; only the idle level varies between variants.
pub fn spi_mode(clock_idle_high: bool) -> (m: SpiMode)
    ensures
        m.clock_idle_high == clock_idle_high,
        m.capture_on_second_edge,
{
    SpiMode { clock_idle_high, capture_on_second_edge: true }
}

} // verus!
