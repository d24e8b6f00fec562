//! In-memory bus and pin for exercising the driver without hardware.
//!
//! [`SimBus`] answers each transfer from a fixed script of response words
//! and can fail one chosen transfer, so callers can exercise a whole
//! transaction — including mid-transaction transfer failures.  [`SimPin`]
//! records the level it was last driven to, so the chip-select line can
//! be observed after an operation returns.

use vstd::prelude::*;

use crate::bus::{ChipSelect, SpiBus};

verus! {

/// The failure a [`SimBus`] transfer reports when asked to fail.
#[derive(Clone, Copy, Debug, PartialEq, Eq, Structural)]
pub struct SimError;

/// A chip-select pin that remembers its level.
pub struct SimPin {
    low: bool,
}

impl SimPin {
    /// Whether the pin is currently driven low.
    pub closed spec fn pin_low(&self) -> bool {
        self.low
    }

    /// A pin at the inactive (high) level.
    pub fn new() -> (r: SimPin)
        ensures
            !r.pin_low(),
    {
        SimPin { low: false }
    }

    /// Whether the pin is currently driven low.
    pub fn is_low(&self) -> (r: bool)
        ensures
            r == self.pin_low(),
    {
        self.low
    }
}

impl ChipSelect for SimPin {
    fn set_low(&mut self)
        ensures
            final(self).pin_low(),
    {
        self.low = true;
    }

    fn set_high(&mut self)
        ensures
            !final(self).pin_low(),
    {
        self.low = false;
    }
}

/// A bus that answers transfer `i` with the `i`-th word of a script.
///
/// Past the end of the script it answers `0`.  If `fail_at` names a
/// transfer, that transfer fails with [`SimError`] instead of exchanging
/// a frame.
pub struct SimBus {
    responses: Vec<u16>,
    pos: usize,
    fail_at: Option<usize>,
}

impl SimBus {
    /// The scripted response words, in transfer order.
    pub closed spec fn script(&self) -> Seq<u16> {
        self.responses@
    }

    /// How many transfers have been attempted so far.
    pub closed spec fn attempted(&self) -> usize {
        self.pos
    }

    /// The transfer number that fails, if one was named.
    pub closed spec fn failing(&self) -> Option<usize> {
        self.fail_at
    }

    /// A bus that will answer from `responses`, failing the transfer
    /// numbered `fail_at` if one is named.
    pub fn new(responses: Vec<u16>, fail_at: Option<usize>) -> (r: SimBus)
        ensures
            r.script() == responses@,
            r.attempted() == 0,
            r.failing() == fail_at,
    {
        SimBus { responses, pos: 0, fail_at }
    }

    /// How many transfers have been attempted so far.
    pub fn transfers_attempted(&self) -> (r: usize)
        ensures
            r == self.attempted(),
    {
        self.pos
    }
}

impl SpiBus for SimBus {
    type BusError = SimError;

    fn transfer(&mut self, _tx: u16) -> (r: Result<u16, SimError>)
        ensures
            final(self).script() == old(self).script(),
            final(self).failing() == old(self).failing(),
            (final(self).attempted() == if old(self).attempted() < usize::MAX {
                old(self).attempted() + 1
            } else {
                old(self).attempted() as int
            }),
            (r is Err <==> old(self).failing() == Some(old(self).attempted())),
            (r matches Ok(rx) ==> rx == if old(self).attempted() < old(self).script().len() {
                old(self).script()[old(self).attempted() as int]
            } else {
                0u16
            }),
    {
        let idx = self.pos;
        if idx < usize::MAX {
            self.pos = idx + 1;
        }
        let fail = match self.fail_at {
            Some(f) => f == idx,
            None => false,
        };
        if fail {
            Err(SimError)
        } else {
            let rx = if idx < self.responses.len() {
                self.responses[idx]
            } else {
                0u16
            };
            Ok(rx)
        }
    }
}

} // verus!
