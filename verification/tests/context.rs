use std::cell::RefCell;

use surface_bridge::context::{BackendContext, Context, GetProcOf};
use surface_bridge::driver::{Device, Instance, PhysicalDevice, Queue};

fn connect(device: Device, family_index: u32) -> Context {
    Context::new(
        &Instance { handle: 0x10 },
        &PhysicalDevice { handle: 0x20 },
        &device,
        &Queue { handle: 0x40, family_index },
        |_context: &Context| true,
    )
    .unwrap()
}

fn unasked_device(_address: usize, _device: usize, _name: &str) -> usize {
    panic!("the device table must not be asked")
}

fn unasked_instance(_instance: usize, _name: &str) -> usize {
    panic!("the instance table must not be asked")
}

#[test]
fn context_tells_the_backend_the_four_handles_and_the_family() {
    let context = connect(Device { handle: 0x30, get_device_proc_addr: 0x7000 }, 2);
    assert_eq!(
        context.backend(),
        BackendContext {
            instance: 0x10,
            physical_device: 0x20,
            device: 0x30,
            queue: 0x40,
            queue_index: 2,
        }
    );
    assert_eq!(context.get_device_proc_addr(), 0x7000);
}

#[test]
fn context_keeps_the_largest_family_index() {
    let context = connect(Device { handle: 1, get_device_proc_addr: 1 }, u32::MAX);
    assert_eq!(context.backend().queue_index, u32::MAX);
}

#[test]
fn context_is_handed_to_the_backend_with_the_lookup_installed() {
    let seen: RefCell<Vec<(BackendContext, usize, usize)>> = RefCell::new(Vec::new());
    let context = Context::new(
        &Instance { handle: 1 },
        &PhysicalDevice { handle: 2 },
        &Device { handle: 3, get_device_proc_addr: 0x9000 },
        &Queue { handle: 4, family_index: 0 },
        |context: &Context| {
            let found = context.get_proc(
                GetProcOf::Device(3, "vkCreateImage"),
                |address: usize, device: usize, _name: &str| address + device,
                unasked_instance,
            );
            seen.borrow_mut().push((
                context.backend(),
                context.get_device_proc_addr(),
                found.pointer,
            ));
            true
        },
    );
    let context = context.unwrap();
    assert_eq!(
        *seen.borrow(),
        vec![(context.backend(), 0x9000usize, 0x9003usize)]
    );
}

#[test]
fn context_is_not_made_when_the_backend_refuses() {
    let context = Context::new(
        &Instance { handle: 1 },
        &PhysicalDevice { handle: 2 },
        &Device { handle: 3, get_device_proc_addr: 0x9000 },
        &Queue { handle: 4, family_index: 0 },
        |_context: &Context| false,
    );
    assert!(context.is_none());
}

#[test]
fn lookup_by_device_goes_through_the_installed_function() {
    let context = connect(Device { handle: 0x30, get_device_proc_addr: 0x7000 }, 0);
    let seen: RefCell<Vec<(usize, usize, String)>> = RefCell::new(Vec::new());
    let resolution = context.get_proc(
        GetProcOf::Device(0x31, "vkCmdBlitImage"),
        |address: usize, device: usize, name: &str| {
            seen.borrow_mut().push((address, device, name.to_string()));
            0xf00
        },
        unasked_instance,
    );
    assert_eq!(resolution.pointer, 0xf00);
    assert_eq!(resolution.diagnostic, None);
    assert_eq!(
        *seen.borrow(),
        vec![(0x7000usize, 0x31usize, "vkCmdBlitImage".to_string())]
    );
}

#[test]
fn lookup_by_instance_goes_to_the_instance_table() {
    let context = connect(Device { handle: 0x30, get_device_proc_addr: 0x7000 }, 0);
    let seen: RefCell<Vec<(usize, String)>> = RefCell::new(Vec::new());
    let resolution = context.get_proc(
        GetProcOf::Instance(0x10, "vkGetPhysicalDeviceFeatures"),
        unasked_device,
        |instance: usize, name: &str| {
            seen.borrow_mut().push((instance, name.to_string()));
            0xabc
        },
    );
    assert_eq!(resolution.pointer, 0xabc);
    assert_eq!(
        *seen.borrow(),
        vec![(0x10usize, "vkGetPhysicalDeviceFeatures".to_string())]
    );
}

#[test]
fn lookup_by_null_instance_goes_to_the_instance_table() {
    let context = connect(Device { handle: 0x30, get_device_proc_addr: 0x7000 }, 0);
    let resolution = context.get_proc(
        GetProcOf::Instance(0, "vkCreateInstance"),
        unasked_device,
        |instance: usize, _name: &str| instance + 5,
    );
    assert_eq!(resolution.pointer, 5);
}

#[test]
fn lookup_by_null_device_goes_to_the_instance_table_with_a_null_instance() {
    let context = connect(Device { handle: 0x30, get_device_proc_addr: 0x7000 }, 0);
    let seen: RefCell<Vec<(usize, String)>> = RefCell::new(Vec::new());
    let resolution = context.get_proc(
        GetProcOf::Device(0, "vkGetDeviceQueue"),
        unasked_device,
        |instance: usize, name: &str| {
            seen.borrow_mut().push((instance, name.to_string()));
            0
        },
    );
    assert_eq!(resolution.pointer, 0);
    assert_eq!(
        resolution.diagnostic,
        Some("instance proc resolve for vkGetDeviceQueue failed".to_string())
    );
    assert_eq!(*seen.borrow(), vec![(0usize, "vkGetDeviceQueue".to_string())]);
}

#[test]
fn miss_by_device_is_reported_for_the_device_table() {
    let context = connect(Device { handle: 0x30, get_device_proc_addr: 0x7000 }, 0);
    let resolution = context.get_proc(
        GetProcOf::Device(0x30, "vkCmdTraceRaysNV"),
        |_address: usize, _device: usize, _name: &str| 0usize,
        unasked_instance,
    );
    assert_eq!(resolution.pointer, 0);
    assert_eq!(
        resolution.diagnostic,
        Some("device proc resolve for vkCmdTraceRaysNV failed".to_string())
    );
}

#[test]
fn two_contexts_resolve_each_through_its_own_device() {
    let first = connect(Device { handle: 0x30, get_device_proc_addr: 0x7000 }, 0);
    let second = connect(Device { handle: 0x50, get_device_proc_addr: 0x8000 }, 1);
    let call = |address: usize, device: usize, _name: &str| address + device;
    let from_first = first.get_proc(GetProcOf::Device(0x30, "vkCmdDraw"), call, unasked_instance);
    let from_second = second.get_proc(GetProcOf::Device(0x50, "vkCmdDraw"), call, unasked_instance);
    let again = first.get_proc(GetProcOf::Device(0x30, "vkCmdDraw"), call, unasked_instance);
    assert_eq!(from_first.pointer, 0x7030);
    assert_eq!(from_second.pointer, 0x8050);
    assert_eq!(again.pointer, 0x7030);
    assert_eq!(first.backend().device, 0x30);
    assert_eq!(second.backend().device, 0x50);
    assert_eq!(second.backend().queue_index, 1);
}
