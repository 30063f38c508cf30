//! Devices that ship with the crate.

pub mod console;
pub mod disk;
pub mod null;
pub mod storage;
pub mod storage_mount;
pub mod test_console;
pub mod timer;
