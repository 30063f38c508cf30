//! A device with nothing behind it.

use vstd::prelude::*;
use crate::io::device::IoDevice;

verus! {

/// A device that reads as a floating bus and discards writes.
pub struct NullDevice;

impl IoDevice for NullDevice {
    /// Every read returns `0xFF`.
    open spec fn reads(&self, port: u8, value: u8, next: &Self) -> bool {
        value == 0xFF
    }

    /// Every write is accepted and forgotten.
    open spec fn writes(&self, port: u8, value: u8, next: &Self) -> bool {
        true
    }

    fn read(&mut self, _port: u8) -> (value: u8) {
        0xFF
    }

    fn write(&mut self, _port: u8, _value: u8) {
    }
}

} // verus!
