//! Connects a [BusConnectible] to the Bus

use super::BusConnectible;
use std::ops::Range;
use vstd::prelude::*;

verus! {

/// The address within a device mapped at `range` that bus address `addr` names, if any: the
/// offset from the start of the range, when it is below the range's end.
pub open spec fn translated(range: Range<u16>, addr: u16) -> Option<u16> {
    let offset = if addr >= range.start {
        (addr - range.start) as u16
    } else {
        (addr - range.start + 0x10000) as u16
    };
    if offset < range.end {
        Some(offset)
    } else {
        None
    }
}

/// BusDevice performs address translation for BusConnectibles.
pub struct BusDevice {
    /// The name of the device
    pub name: String,
    /// The bus addresses at which the device is mapped
    pub range: Range<u16>,
    device: Box<dyn BusConnectible>,
}

impl BusDevice {
    /// The name of the device.
    pub closed spec fn name_spec(&self) -> Seq<char> {
        self.name@
    }

    /// The bus addresses at which the device is mapped.
    pub closed spec fn range_spec(&self) -> Range<u16> {
        self.range
    }

    /// What the mapped device reads at its own address `at`.
    pub closed spec fn device_read(&self, at: u16) -> Option<u8> {
        self.device.read_at_spec(at)
    }

    /// What the mapped device reads at its own address `at` once `data` has been written at
    /// its own address `addr`.
    pub closed spec fn device_read_after_write(&self, addr: u16, data: u8, at: u16) -> Option<u8> {
        self.device.read_after_write(addr, data, at)
    }

    /// Maps `device` at `range`, under the name `name`
    pub fn new(name: &str, range: Range<u16>, device: Box<dyn BusConnectible>) -> (r: Self)
        ensures
            r.name_spec() == name@,
            r.range_spec() == range,
    {
        let mut owned = String::new();
        crate::text::push_str(&mut owned, name);
        BusDevice { name: owned, range, device }
    }

    /// The device address that bus address `addr` names, if any
    pub fn translate_address(&self, addr: u16) -> (r: Option<u16>)
        ensures
            r == translated(self.range_spec(), addr),
    {
        let addr = addr.wrapping_sub(self.range.start);
        if addr < self.range.end {
            Some(addr)
        } else {
            None
        }
    }
}

impl BusConnectible for BusDevice {
    /// What the device reads at the translated address; nothing when `addr` is not mapped.
    open spec fn read_at_spec(&self, addr: u16) -> Option<u8> {
        match translated(self.range_spec(), addr) {
            Some(a) => self.device_read(a),
            None => None,
        }
    }

    /// What `at` reads once `data` has been written at `addr`: the device is written at the
    /// translated address, when `addr` is mapped.
    open spec fn read_after_write(&self, addr: u16, data: u8, at: u16) -> Option<u8> {
        match translated(self.range_spec(), at) {
            Some(b) => match translated(self.range_spec(), addr) {
                Some(t) => self.device_read_after_write(t, data, b),
                None => self.device_read(b),
            },
            None => None,
        }
    }

    /// Reads from the device at the translated address; nothing when `addr` is not mapped
    fn read_at(&self, addr: u16) -> (r: Option<u8>)
        ensures
            r == (match translated(self.range_spec(), addr) {
                Some(a) => self.device_read(a),
                None => None,
            }),
    {
        match self.translate_address(addr) {
            Some(addr) => self.device.read_at(addr),
            None => None,
        }
    }

    /// Writes to the device at the translated address; nothing when `addr` is not mapped
    fn write_to(&mut self, addr: u16, data: u8)
        ensures
            final(self).name_spec() == old(self).name_spec(),
            final(self).range_spec() == old(self).range_spec(),
            forall|at: u16|
                #[trigger] final(self).device_read(at) == (match translated(old(self).range_spec(), addr) {
                    Some(t) => old(self).device_read_after_write(t, data, at),
                    None => old(self).device_read(at),
                }),
    {
        if let Some(addr) = self.translate_address(addr) {
            self.device.write_to(addr, data);
        }
    }
}

} // verus!
