//! The registers of the legacy disk device, which addresses one file of
//! the host with 16 bits.
//!
//! Port `0x20` is the data register with auto-increment, port `0x21` the
//! address low byte, port `0x22` the address high byte.

use vstd::prelude::*;
use crate::bits::lemma_word_fields;

verus! {

/// Port of the data register.
pub const DISK_PORT_DATA: u8 = 0x20;

/// Port of the address low byte.
pub const DISK_PORT_ADDR_LO: u8 = 0x21;

/// Port of the address high byte.
pub const DISK_PORT_ADDR_HI: u8 = 0x22;

/// What a read of a disk port asks for.
#[derive(Debug, Clone, Copy, PartialEq, Eq, Structural)]
pub enum DiskRead {
    /// The port reads as this byte.
    Value(u8),
    /// The port reads the byte of the file at `offset`.
    Data { offset: u16 },
}

/// What a write to a disk port asks for.
#[derive(Debug, Clone, Copy, PartialEq, Eq, Structural)]
pub enum DiskWrite {
    /// Nothing beyond the registers.
    Done,
    /// `value` is to be written to the file at `offset`.
    Data { offset: u16, value: u8 },
}

/// The address register of the disk device.
pub struct DiskRegisters {
    address: u16,
}

impl View for DiskRegisters {
    type V = u16;

    /// The address.
    closed spec fn view(&self) -> u16 {
        self.address
    }
}

/// What a read of `port` asks for with the address at `address`.
pub open spec fn disk_read_request(address: u16, port: u8) -> DiskRead {
    if port == DISK_PORT_DATA {
        DiskRead::Data { offset: address }
    } else if port == DISK_PORT_ADDR_LO {
        DiskRead::Value((address % 256) as u8)
    } else if port == DISK_PORT_ADDR_HI {
        DiskRead::Value((address / 256) as u8)
    } else {
        DiskRead::Value(0xFF)
    }
}

/// What a write of `value` to `port` asks of the file with the address
/// at `address`.
pub open spec fn disk_write_request(address: u16, port: u8, value: u8) -> DiskWrite {
    if port == DISK_PORT_DATA {
        DiskWrite::Data { offset: address, value }
    } else {
        DiskWrite::Done
    }
}

/// The address after a write of `value` to `port`: a data write moves
/// it on by one, modulo 2^16, whether or not the file takes the byte; an
/// address port replaces one of its bytes.
pub open spec fn disk_address_after_write(address: u16, port: u8, value: u8) -> u16 {
    if port == DISK_PORT_DATA {
        address.wrapping_add(1)
    } else if port == DISK_PORT_ADDR_LO {
        ((address / 256) * 256 + value) as u16
    } else if port == DISK_PORT_ADDR_HI {
        (value * 256 + address % 256) as u16
    } else {
        address
    }
}

impl DiskRegisters {
    /// Registers with the address at zero.
    pub fn new() -> (registers: Self)
        ensures
            registers@ == 0,
    {
        DiskRegisters { address: 0 }
    }

    /// Says what a read of `port` asks for.
    pub fn read(&self, port: u8) -> (request: DiskRead)
        ensures
            request == disk_read_request(self@, port),
    {
        proof {
            lemma_word_fields(self.address, 0, 0);
        }
        if port == DISK_PORT_DATA {
            DiskRead::Data { offset: self.address }
        } else if port == DISK_PORT_ADDR_LO {
            DiskRead::Value((self.address & 0xFF) as u8)
        } else if port == DISK_PORT_ADDR_HI {
            DiskRead::Value((self.address >> 8) as u8)
        } else {
            DiskRead::Value(0xFF)
        }
    }

    /// Finishes a data read with what the file answered: the byte read,
    /// after which the address moves on, or zero where the read failed.
    pub fn finish_read(&mut self, byte: Option<u8>) -> (value: u8)
        ensures
            value == (match byte {
                Some(read) => read,
                None => 0u8,
            }),
            final(self)@ == (if byte.is_some() {
                old(self)@.wrapping_add(1)
            } else {
                old(self)@
            }),
    {
        match byte {
            Some(read) => {
                self.address = self.address.wrapping_add(1);
                read
            },
            None => 0x00,
        }
    }

    /// Takes a write of `value` to `port` into the registers and says
    /// what it asks of the file.
    pub fn write(&mut self, port: u8, value: u8) -> (request: DiskWrite)
        ensures
            request == disk_write_request(old(self)@, port, value),
            final(self)@ == disk_address_after_write(old(self)@, port, value),
    {
        proof {
            lemma_word_fields(self.address, value, value);
        }
        if port == DISK_PORT_DATA {
            let offset = self.address;
            self.address = self.address.wrapping_add(1);
            DiskWrite::Data { offset, value }
        } else if port == DISK_PORT_ADDR_LO {
            self.address = (self.address & 0xFF00) | (value as u16);
            DiskWrite::Done
        } else if port == DISK_PORT_ADDR_HI {
            self.address = (self.address & 0x00FF) | ((value as u16) << 8);
            DiskWrite::Done
        } else {
            DiskWrite::Done
        }
    }
}

} // verus!
