//! The registers of the linear storage device and of its mount service.
//! The devices keep their data in files of the host; this module holds
//! what they decide, and says which access to the file each port access
//! asks for.
//!
//! Storage, 24-bit addressing of one mounted file:
//! port `0x08` address low byte, `0x09` address middle byte, `0x0A`
//! address high byte, `0x0B` data with auto-increment, `0x0C` status on
//! read (bit 0 mounted, bit 1 ready, bit 7 end of file) and control on
//! write (`0x00` reset address, `0x01` decrement address, `0x02` flush).
//!
//! Mount service: port `0x0D` takes the characters of a file name,
//! `0x0E` a command (`0x01` mount, `0x02` unmount, `0x03` query), `0x0F`
//! reads the status (`0x00` done or mounted, `0x01` not found or not
//! mounted, `0x02` invalid name).

use vstd::prelude::*;
use crate::bits::{lemma_address_fields, lemma_length_truncation};

verus! {

/// Port of the address low byte.
pub const STORAGE_PORT_ADDR_LO: u8 = 0x08;

/// Port of the address middle byte.
pub const STORAGE_PORT_ADDR_MID: u8 = 0x09;

/// Port of the address high byte.
pub const STORAGE_PORT_ADDR_HI: u8 = 0x0A;

/// Port of the data register.
pub const STORAGE_PORT_DATA: u8 = 0x0B;

/// Port of the status and control register.
pub const STORAGE_PORT_CONTROL: u8 = 0x0C;

/// Control command: set the address to zero.
pub const STORAGE_RESET: u8 = 0x00;

/// Control command: step the address back by one.
pub const STORAGE_DECREMENT: u8 = 0x01;

/// Control command: flush what was written.
pub const STORAGE_FLUSH: u8 = 0x02;

/// Number of addresses of the device, 2^24.
pub const STORAGE_SPAN: u32 = 0x100_0000;

/// What a read of a storage port asks for.
#[derive(Debug, Clone, Copy, PartialEq, Eq, Structural)]
pub enum StorageRead {
    /// The port reads as this byte.
    Value(u8),
    /// The port reads the byte of the file at `offset`.
    Data { offset: u32 },
}

/// What a write to a storage port asks for.
#[derive(Debug, Clone, Copy, PartialEq, Eq, Structural)]
pub enum StorageWrite {
    /// Nothing beyond the registers.
    Done,
    /// `value` is to be written to the file at `offset`.
    Data { offset: u32, value: u8 },
    /// The file is to be flushed.
    Flush,
}

/// The registers of the storage device. The address stays below 2^24.
pub struct StorageRegisters {
    address: u32,
    file_size: u32,
    mounted: bool,
}

/// The registers of the storage device, as a value.
pub struct StorageState {
    pub address: u32,
    pub file_size: u32,
    pub mounted: bool,
}

impl StorageState {
    /// The address is a 24-bit address.
    pub open spec fn wf(self) -> bool {
        self.address < STORAGE_SPAN
    }

    /// The address after a step forward, from the last address to zero.
    pub open spec fn next_address(self) -> u32 {
        ((self.address + 1) % (STORAGE_SPAN as int)) as u32
    }

    /// The address after a step back, from zero to the last address.
    pub open spec fn previous_address(self) -> u32 {
        ((self.address - 1) % (STORAGE_SPAN as int)) as u32
    }

    /// The status byte: bit 1 always, bit 0 when a file is mounted, bit 7
    /// when the address lies at or behind the end of the file.
    pub open spec fn status(self) -> u8 {
        (0x02 + (if self.mounted { 0x01int } else { 0 }) + (if self.address >= self.file_size {
            0x80int
        } else {
            0
        })) as u8
    }

    /// What a read of `port` asks for. The data port reads the file at
    /// the address while a file is mounted and `0xFF` while none is;
    /// ports that are not the device's read as `0xFF`.
    pub open spec fn read_request(self, port: u8) -> StorageRead {
        if port == STORAGE_PORT_ADDR_LO {
            StorageRead::Value((self.address % 256) as u8)
        } else if port == STORAGE_PORT_ADDR_MID {
            StorageRead::Value(((self.address / 256) % 256) as u8)
        } else if port == STORAGE_PORT_ADDR_HI {
            StorageRead::Value((self.address / 0x1_0000) as u8)
        } else if port == STORAGE_PORT_DATA {
            if self.mounted {
                StorageRead::Data { offset: self.address }
            } else {
                StorageRead::Value(0xFF)
            }
        } else if port == STORAGE_PORT_CONTROL {
            StorageRead::Value(self.status())
        } else {
            StorageRead::Value(0xFF)
        }
    }

    /// The registers after the file answered a data read: a byte read
    /// moves the address on, a failed read leaves it.
    pub open spec fn after_data_read(self, byte: Option<u8>) -> StorageState {
        if byte.is_some() {
            StorageState { address: self.next_address(), ..self }
        } else {
            self
        }
    }

    /// The registers after a write of `value` to `port`, before the file
    /// is touched.
    pub open spec fn after_write(self, port: u8, value: u8) -> StorageState {
        if port == STORAGE_PORT_ADDR_LO {
            StorageState { address: ((self.address / 256) * 256 + value) as u32, ..self }
        } else if port == STORAGE_PORT_ADDR_MID {
            StorageState {
                address: ((self.address / 0x1_0000) * 0x1_0000 + value * 256 + self.address % 256) as u32,
                ..self
            }
        } else if port == STORAGE_PORT_ADDR_HI {
            StorageState { address: (value * 0x1_0000 + self.address % 0x1_0000) as u32, ..self }
        } else if port == STORAGE_PORT_CONTROL && value == STORAGE_RESET {
            StorageState { address: 0, ..self }
        } else if port == STORAGE_PORT_CONTROL && value == STORAGE_DECREMENT {
            StorageState { address: self.previous_address(), ..self }
        } else {
            self
        }
    }

    /// What a write of `value` to `port` asks of the file.
    pub open spec fn write_request(self, port: u8, value: u8) -> StorageWrite {
        if port == STORAGE_PORT_DATA && self.mounted {
            StorageWrite::Data { offset: self.address, value }
        } else if port == STORAGE_PORT_CONTROL && value == STORAGE_FLUSH {
            StorageWrite::Flush
        } else {
            StorageWrite::Done
        }
    }

    /// The registers after a data byte went to the file: the file has
    /// grown to hold the address if it ended before, and the address has
    /// moved on.
    pub open spec fn after_data_write(self) -> StorageState {
        StorageState {
            address: self.next_address(),
            file_size: if self.address >= self.file_size {
                (self.address + 1) as u32
            } else {
                self.file_size
            },
            ..self
        }
    }

    /// The registers after a file of `length` bytes was mounted: the
    /// size is the length modulo 2^32, the address zero.
    pub open spec fn after_mount(self, length: u64) -> StorageState {
        StorageState { address: 0, file_size: (length % 0x1_0000_0000) as u32, mounted: true }
    }

    /// The registers with no file mounted.
    pub open spec fn after_unmount(self) -> StorageState {
        StorageState { address: 0, file_size: 0, mounted: false }
    }
}

impl View for StorageRegisters {
    type V = StorageState;

    /// The registers of the device.
    closed spec fn view(&self) -> StorageState {
        StorageState { address: self.address, file_size: self.file_size, mounted: self.mounted }
    }
}

impl StorageRegisters {
    /// The address is a 24-bit address.
    #[verifier::type_invariant]
    spec fn address_in_range(&self) -> bool {
        self.address < STORAGE_SPAN
    }

    /// Registers with no file mounted and the address at zero.
    pub fn new() -> (registers: Self)
        ensures
            registers@ == (StorageState { address: 0, file_size: 0, mounted: false }),
            registers@.wf(),
    {
        StorageRegisters { address: 0, file_size: 0, mounted: false }
    }

    /// Whether a file is mounted.
    pub fn is_mounted(&self) -> (mounted: bool)
        ensures
            mounted == self@.mounted,
    {
        self.mounted
    }

    /// Takes note that a file of `length` bytes was mounted.
    pub fn mount(&mut self, length: u64)
        ensures
            final(self)@ == old(self)@.after_mount(length),
            final(self)@.wf(),
    {
        proof {
            lemma_length_truncation(length);
        }
        self.address = 0;
        self.file_size = length as u32;
        self.mounted = true;
    }

    /// Takes note that the file was unmounted.
    pub fn unmount(&mut self)
        ensures
            final(self)@ == old(self)@.after_unmount(),
            final(self)@.wf(),
    {
        self.address = 0;
        self.file_size = 0;
        self.mounted = false;
    }

    /// The status byte.
    pub fn status(&self) -> (status: u8)
        ensures
            status == self@.status(),
    {
        let mounted: u8 = if self.mounted { 0x01 } else { 0 };
        let at_end: u8 = if self.address >= self.file_size { 0x80 } else { 0 };
        0x02 + mounted + at_end
    }

    /// Says what a read of `port` asks for.
    pub fn read(&self, port: u8) -> (request: StorageRead)
        ensures
            self@.wf(),
            request == self@.read_request(port),
    {
        proof {
            use_type_invariant(&*self);
            lemma_address_fields(self.address, 0);
        }
        if port == STORAGE_PORT_ADDR_LO {
            StorageRead::Value(self.address as u8)
        } else if port == STORAGE_PORT_ADDR_MID {
            StorageRead::Value((self.address >> 8) as u8)
        } else if port == STORAGE_PORT_ADDR_HI {
            StorageRead::Value((self.address >> 16) as u8)
        } else if port == STORAGE_PORT_DATA {
            if self.mounted {
                StorageRead::Data { offset: self.address }
            } else {
                StorageRead::Value(0xFF)
            }
        } else if port == STORAGE_PORT_CONTROL {
            StorageRead::Value(self.status())
        } else {
            StorageRead::Value(0xFF)
        }
    }

    /// Finishes a data read with what the file answered: the byte read,
    /// or `0xFF` where the read failed.
    pub fn finish_read(&mut self, byte: Option<u8>) -> (value: u8)
        ensures
            old(self)@.wf(),
            value == (match byte {
                Some(read) => read,
                None => 0xFFu8,
            }),
            final(self)@ == old(self)@.after_data_read(byte),
            final(self)@.wf(),
    {
        proof {
            use_type_invariant(&*self);
        }
        match byte {
            Some(read) => {
                self.increment_address();
                read
            },
            None => 0xFF,
        }
    }

    /// Takes a write of `value` to `port` into the registers and says
    /// what it asks of the file.
    pub fn write(&mut self, port: u8, value: u8) -> (request: StorageWrite)
        ensures
            old(self)@.wf(),
            request == old(self)@.write_request(port, value),
            final(self)@ == old(self)@.after_write(port, value),
            final(self)@.wf(),
    {
        proof {
            use_type_invariant(&*self);
            lemma_address_fields(self.address, value);
        }
        if port == STORAGE_PORT_ADDR_LO {
            self.address = (self.address & 0x00FF_FF00) | (value as u32);
            StorageWrite::Done
        } else if port == STORAGE_PORT_ADDR_MID {
            self.address = (self.address & 0x00FF_00FF) | ((value as u32) << 8);
            StorageWrite::Done
        } else if port == STORAGE_PORT_ADDR_HI {
            self.address = (self.address & 0x0000_FFFF) | ((value as u32) << 16);
            StorageWrite::Done
        } else if port == STORAGE_PORT_DATA {
            if self.mounted {
                StorageWrite::Data { offset: self.address, value }
            } else {
                StorageWrite::Done
            }
        } else if port == STORAGE_PORT_CONTROL {
            if value == STORAGE_RESET {
                self.address = 0;
                StorageWrite::Done
            } else if value == STORAGE_DECREMENT {
                self.decrement_address();
                StorageWrite::Done
            } else if value == STORAGE_FLUSH {
                StorageWrite::Flush
            } else {
                StorageWrite::Done
            }
        } else {
            StorageWrite::Done
        }
    }

    /// Finishes a data write that reached the file.
    pub fn finish_write(&mut self)
        ensures
            old(self)@.wf(),
            final(self)@ == old(self)@.after_data_write(),
            final(self)@.wf(),
    {
        proof {
            use_type_invariant(&*self);
        }
        if self.address >= self.file_size {
            self.file_size = self.address + 1;
        }
        self.increment_address();
    }

    /// Steps the address forward, from the last address to zero.
    fn increment_address(&mut self)
        ensures
            old(self)@.wf(),
            final(self)@ == (StorageState { address: old(self)@.next_address(), ..old(self)@ }),
            final(self)@.wf(),
    {
        proof {
            use_type_invariant(&*self);
            lemma_address_fields(self.address, 0);
        }
        self.address = self.address.wrapping_add(1) & 0x00FF_FFFF;
    }

    /// Steps the address back, from zero to the last address.
    fn decrement_address(&mut self)
        ensures
            old(self)@.wf(),
            final(self)@ == (StorageState { address: old(self)@.previous_address(), ..old(self)@ }),
            final(self)@.wf(),
    {
        proof {
            use_type_invariant(&*self);
            lemma_address_fields(self.address, 0);
        }
        self.address = self.address.wrapping_sub(1) & 0x00FF_FFFF;
    }
}

} // verus!
