//! The driver objects of the application, as far as the bridge reads them.
//!
//! None of these owns anything. A handle is the raw value that the driver
//! gave out; the application keeps the object behind it alive.

use vstd::prelude::*;

verus! {

/// A driver instance.
#[derive(Clone, Copy, Debug, PartialEq, Eq, Structural)]
pub struct Instance {
    pub handle: usize,
}

/// A physical device.
#[derive(Clone, Copy, Debug, PartialEq, Eq, Structural)]
pub struct PhysicalDevice {
    pub handle: usize,
}

/// A logical device, with the address of its device-level function for
/// looking up entry points (zero when it exposes none).
#[derive(Clone, Copy, Debug, PartialEq, Eq, Structural)]
pub struct Device {
    pub handle: usize,
    pub get_device_proc_addr: usize,
}

/// A queue of a device, with the index of its queue family.
#[derive(Clone, Copy, Debug, PartialEq, Eq, Structural)]
pub struct Queue {
    pub handle: usize,
    pub family_index: u32,
}

/// An image, with the size in bytes of the allocation that it requires at
/// present.
#[derive(Clone, Copy, Debug, PartialEq, Eq, Structural)]
pub struct Image {
    pub handle: u64,
    pub required_size: u64,
}

/// An allocation of device memory.
#[derive(Clone, Copy, Debug, PartialEq, Eq, Structural)]
pub struct DeviceMemory {
    pub handle: u64,
}

} // verus!
