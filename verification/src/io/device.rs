//! The capability every peripheral provides.

use vstd::prelude::*;

verus! {

/// A peripheral on the I/O bus. A device answers reads and writes on the
/// ports it is bound to; in `reads` and `writes` it says what an access
/// returns and how it leaves the device.
pub trait IoDevice: Sized {
    /// Whether a read of `port` may return `value` and leave the device
    /// as `next`. A device that says nothing may answer anything.
    open spec fn reads(&self, port: u8, value: u8, next: &Self) -> bool {
        true
    }

    /// Whether a write of `value` to `port` may leave the device as
    /// `next`. A device that says nothing may end in any state.
    open spec fn writes(&self, port: u8, value: u8, next: &Self) -> bool {
        true
    }

    /// Reads a byte from `port`.
    fn read(&mut self, port: u8) -> (value: u8)
        ensures
            old(self).reads(port, value, final(self)),
    ;

    /// Writes `value` to `port`.
    fn write(&mut self, port: u8, value: u8)
        ensures
            old(self).writes(port, value, final(self)),
    ;
}

} // verus!
