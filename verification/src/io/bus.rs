//! The I/O bus: a registry of devices and a table of 256 ports, each
//! unbound or bound to one registered device.

use vstd::prelude::*;
use crate::io::device::IoDevice;

verus! {

/// Byte that an unbound port reads as.
pub const FLOATING_BUS: u8 = 0xFF;

/// The bus owns its devices and routes each port to at most one of them.
/// A device may answer on several ports: the ports then hold the same
/// index, and every access through any of them reaches the one device.
/// A port whose index names no registered device behaves as unbound.
pub struct IoBus<D: IoDevice> {
    devices: Vec<D>,
    ports: [Option<usize>; 256],
}

impl<D: IoDevice> IoBus<D> {
    /// The registered devices, in the order of their registration.
    pub closed spec fn devices(&self) -> Seq<D> {
        self.devices@
    }

    /// The index of the device that `port` is bound to, if any.
    pub closed spec fn binding(&self, port: u8) -> Option<usize> {
        self.ports@[port as int]
    }

    /// The device that answers on `port`: the one the port is bound to,
    /// provided that index names a registered device.
    pub open spec fn target(&self, port: u8) -> Option<int> {
        match self.binding(port) {
            Some(index) if index < self.devices().len() => Some(index as int),
            _ => None,
        }
    }

    /// Whether `next` differs from this bus at most in the device with
    /// index `index`.
    pub open spec fn same_except(&self, index: int, next: &Self) -> bool {
        &&& next.devices().len() == self.devices().len()
        &&& forall|port: u8| #[trigger] next.binding(port) == self.binding(port)
        &&& forall|other: int|
            0 <= other < self.devices().len() && other != index ==> #[trigger] next.devices()[other]
                == self.devices()[other]
    }

    /// Whether a read of `port` may return `value` and leave the bus as
    /// `next`. An unbound port reads as `0xFF` and the bus stays as it is;
    /// a bound port hands the read to its device, and nothing but that
    /// device changes.
    pub open spec fn reads(&self, port: u8, value: u8, next: &Self) -> bool {
        match self.target(port) {
            Some(index) => {
                &&& self.same_except(index, next)
                &&& self.devices()[index].reads(port, value, &next.devices()[index])
            },
            None => value == FLOATING_BUS && self.same_except(-1, next),
        }
    }

    /// Whether a write of `value` to `port` may leave the bus as `next`.
    /// A write to an unbound port is dropped; a bound port hands the
    /// write to its device, and nothing but that device changes.
    pub open spec fn writes(&self, port: u8, value: u8, next: &Self) -> bool {
        match self.target(port) {
            Some(index) => {
                &&& self.same_except(index, next)
                &&& self.devices()[index].writes(port, value, &next.devices()[index])
            },
            None => self.same_except(-1, next),
        }
    }

    /// A bus with no device and every port unbound.
    pub fn new() -> (bus: Self)
        ensures
            bus.devices().len() == 0,
            forall|port: u8| #[trigger] bus.binding(port) == None::<usize>,
    {
        IoBus { devices: Vec::new(), ports: [None; 256] }
    }

    /// Number of registered devices.
    pub fn device_count(&self) -> (count: usize)
        ensures
            count == self.devices().len(),
    {
        self.devices.len()
    }

    /// Registers a device and returns its index. No port is bound to it
    /// yet.
    pub fn add_device(&mut self, device: D) -> (index: usize)
        ensures
            index == old(self).devices().len(),
            final(self).devices() == old(self).devices().push(device),
            forall|port: u8| #[trigger] final(self).binding(port) == old(self).binding(port),
    {
        let index = self.devices.len();
        self.devices.push(device);
        index
    }

    /// Binds `port` to the device with index `device`, replacing any
    /// earlier binding of the port. An index that names no registered
    /// device is refused: the bus stays as it is and the result is
    /// `false`.
    pub fn map_port(&mut self, port: u8, device: usize) -> (bound: bool)
        ensures
            bound == (device < old(self).devices().len()),
            final(self).devices() == old(self).devices(),
            forall|other: u8|
                #[trigger] final(self).binding(other) == (if bound && other == port {
                    Some(device)
                } else {
                    old(self).binding(other)
                }),
    {
        if device < self.devices.len() {
            self.ports[port as usize] = Some(device);
            true
        } else {
            false
        }
    }

    /// The device that `port` is bound to, if any.
    pub fn port_device(&self, port: u8) -> (index: Option<usize>)
        ensures
            index == self.binding(port),
    {
        self.ports[port as usize]
    }

    /// The device with index `index`, if there is one.
    pub fn device(&self, index: usize) -> (device: Option<&D>)
        ensures
            index < self.devices().len() ==> device == Some(&self.devices()[index as int]),
            index >= self.devices().len() ==> device.is_none(),
    {
        if index < self.devices.len() {
            Some(&self.devices[index])
        } else {
            None
        }
    }

    /// The device with index `index`, for changing it; `None` if there
    /// is none. Whatever the caller does to the device stays in the
    /// bus; nothing else changes.
    pub fn device_mut(&mut self, index: usize) -> (device: Option<&mut D>)
        ensures
            match device {
                Some(found) => {
                    &&& index < old(self).devices().len()
                    &&& *found == old(self).devices()[index as int]
                    &&& final(self).devices() == old(self).devices().update(index as int, *final(found))
                    &&& forall|port: u8| #[trigger] final(self).binding(port) == old(self).binding(port)
                },
                None => index >= old(self).devices().len() && *final(self) == *old(self),
            },
    {
        if index < self.devices.len() {
            Some(&mut self.devices[index])
        } else {
            None
        }
    }

    /// Reads `port`: the byte its device returns, or `0xFF` if the port
    /// is unbound.
    pub fn read(&mut self, port: u8) -> (value: u8)
        ensures
            old(self).reads(port, value, final(self)),
    {
        match self.ports[port as usize] {
            Some(index) => {
                if index < self.devices.len() {
                    self.devices[index].read(port)
                } else {
                    FLOATING_BUS
                }
            },
            None => FLOATING_BUS,
        }
    }

    /// Writes `value` to `port`: the write goes to the port's device, or
    /// nowhere if the port is unbound.
    pub fn write(&mut self, port: u8, value: u8)
        ensures
            old(self).writes(port, value, final(self)),
    {
        match self.ports[port as usize] {
            Some(index) => {
                if index < self.devices.len() {
                    self.devices[index].write(port, value);
                }
            },
            None => {},
        }
    }
}

/// One device bound to two ports answers on both: a write through the
/// first port reaches the device, the second port still leads to it, and
/// a read through the second port meets the device as the write left
/// it.
pub proof fn lemma_shared_device<D: IoDevice>(
    bus: IoBus<D>,
    written: IoBus<D>,
    read: IoBus<D>,
    device: int,
    first: u8,
    second: u8,
    value: u8,
    answer: u8,
)
    requires
        bus.target(first) == Some(device),
        bus.target(second) == Some(device),
        bus.writes(first, value, &written),
        written.reads(second, answer, &read),
    ensures
        bus.devices()[device].writes(first, value, &written.devices()[device]),
        written.target(second) == Some(device),
        written.devices()[device].reads(second, answer, &read.devices()[device]),
{
}

} // verus!
