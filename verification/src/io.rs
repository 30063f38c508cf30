//! Port-mapped I/O: the device capability, the bus that routes ports to
//! devices, and the devices that ship with the crate.

pub mod bus;
pub mod device;
pub mod devices;

pub use bus::IoBus;
pub use device::IoDevice;
