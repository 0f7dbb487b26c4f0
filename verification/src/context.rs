//! The connection of the drawing backend to the application's device.

use crate::driver::{Device, Instance, PhysicalDevice, Queue};
use crate::resolver::{outcome, resolve, scope_of, Resolution};
use vstd::prelude::*;

verus! {

/// What the backend is told of the application's driver objects: four raw
/// handles and the index of the queue's family.
#[derive(Clone, Copy, Debug, PartialEq, Eq, Structural)]
pub struct BackendContext {
    pub instance: usize,
    pub physical_device: usize,
    pub device: usize,
    pub queue: usize,
    pub queue_index: u32,
}

/// A lookup as the backend asks for it: tagged by the kind of handle that it
/// carries, with the name of the function.
#[derive(Clone, Copy, Debug)]
pub enum GetProcOf<'a> {
    Instance(usize, &'a str),
    Device(usize, &'a str),
}

impl<'a> GetProcOf<'a> {
    /// The instance handle of the lookup: null for a lookup by device.
    pub open spec fn instance(&self) -> usize {
        match self {
            GetProcOf::Instance(instance, _) => *instance,
            GetProcOf::Device(_, _) => 0,
        }
    }

    /// The device handle of the lookup: null for a lookup by instance.
    pub open spec fn device(&self) -> usize {
        match self {
            GetProcOf::Instance(_, _) => 0,
            GetProcOf::Device(device, _) => *device,
        }
    }

    /// The name of the function.
    pub open spec fn name(&self) -> &'a str {
        match self {
            GetProcOf::Instance(_, name) => *name,
            GetProcOf::Device(_, name) => *name,
        }
    }
}

/// The backend's connection to one device of the application.
///
/// It holds copies of raw handles and owns none of the objects behind them.
pub struct Context {
    backend: BackendContext,
    get_device_proc_addr: usize,
}

impl Context {
    /// What the backend is told of the application's driver objects.
    pub closed spec fn backend_context(&self) -> BackendContext {
        self.backend
    }

    /// The address of the device-level lookup function that was installed.
    pub closed spec fn device_proc_addr(&self) -> usize {
        self.get_device_proc_addr
    }

    #[verifier::type_invariant]
    spec fn installed(&self) -> bool {
        self.get_device_proc_addr != 0
    }

    /// The connection that the four driver objects make.
    pub closed spec fn connected(
        instance: Instance,
        physical_device: PhysicalDevice,
        device: Device,
        queue: Queue,
    ) -> Context {
        Context {
            backend: BackendContext {
                instance: instance.handle,
                physical_device: physical_device.handle,
                device: device.handle,
                queue: queue.handle,
                queue_index: queue.family_index,
            },
            get_device_proc_addr: device.get_device_proc_addr,
        }
    }

    /// A connection tells the backend the four handles and the index of the
    /// queue's family as they were given, and has the device's own lookup
    /// function installed.
    pub proof fn lemma_connected(
        instance: Instance,
        physical_device: PhysicalDevice,
        device: Device,
        queue: Queue,
    )
        ensures
            Context::connected(instance, physical_device, device, queue).device_proc_addr()
                == device.get_device_proc_addr,
            Context::connected(instance, physical_device, device, queue).backend_context() == (
            BackendContext {
                instance: instance.handle,
                physical_device: physical_device.handle,
                device: device.handle,
                queue: queue.handle,
                queue_index: queue.family_index,
            }),
    {
    }

    /// Connects the backend to a device.
    ///
    /// The device's own lookup function is installed first, for every lookup
    /// by device that comes through this context. Then `create` has the
    /// backend make its side of the connection, which may already look
    /// functions up through the context that it is given, and says whether the
    /// backend accepted. There is a context exactly when it did.
    pub fn new<F>(
        instance: &Instance,
        physical_device: &PhysicalDevice,
        device: &Device,
        queue: &Queue,
        create: F,
    ) -> (context: Option<Context>) where F: FnOnce(&Context) -> bool
        requires
            device.get_device_proc_addr != 0,
            call_requires(
                create,
                (&Context::connected(*instance, *physical_device, *device, *queue),),
            ),
        ensures
            context is Some ==> call_ensures(
                create,
                (&Context::connected(*instance, *physical_device, *device, *queue),),
                true,
            ) && context->0 == Context::connected(*instance, *physical_device, *device, *queue),
            context is Some ==> context->0.device_proc_addr() == device.get_device_proc_addr
                && context->0.backend_context() == (BackendContext {
                instance: instance.handle,
                physical_device: physical_device.handle,
                device: device.handle,
                queue: queue.handle,
                queue_index: queue.family_index,
            }),
            context is None ==> call_ensures(
                create,
                (&Context::connected(*instance, *physical_device, *device, *queue),),
                false,
            ),
    {
        let context = Context {
            backend: BackendContext {
                instance: instance.handle,
                physical_device: physical_device.handle,
                device: device.handle,
                queue: queue.handle,
                queue_index: queue.family_index,
            },
            get_device_proc_addr: device.get_device_proc_addr,
        };
        if create(&context) {
            Some(context)
        } else {
            None
        }
    }

    /// What the backend is told of the application's driver objects.
    pub fn backend(&self) -> (backend: BackendContext)
        ensures
            backend == self.backend_context(),
    {
        self.backend
    }

    /// The address of the device-level lookup function that was installed: never null.
    pub fn get_device_proc_addr(&self) -> (address: usize)
        ensures
            address == self.device_proc_addr(),
            address != 0,
    {
        proof {
            use_type_invariant(self);
        }
        self.get_device_proc_addr
    }

    /// Answers a lookup of the backend.
    ///
    /// `call_device_proc` calls the device-level lookup function at the
    /// address of its first argument. A lookup by device with a handle that is
    /// not null goes through the function that this context installed; every
    /// other lookup goes to `get_instance_proc_addr`, a lookup by device with a
    /// null handle as a lookup with a null instance.
    pub fn get_proc<C, I>(
        &self,
        of: GetProcOf<'_>,
        call_device_proc: C,
        get_instance_proc_addr: I,
    ) -> (resolution: Resolution) where
        C: FnOnce(usize, usize, &str) -> usize,
        I: FnOnce(usize, &str) -> usize,

        requires
            of.device() != 0 ==> call_requires(
                call_device_proc,
                (self.device_proc_addr(), of.device(), of.name()),
            ),
            of.device() == 0 ==> call_requires(get_instance_proc_addr, (of.instance(), of.name())),
        ensures
            of.device() != 0 ==> call_ensures(
                call_device_proc,
                (self.device_proc_addr(), of.device(), of.name()),
                resolution.pointer,
            ),
            of.device() == 0 ==> call_ensures(
                get_instance_proc_addr,
                (of.instance(), of.name()),
                resolution.pointer,
            ),
            resolution@ == outcome(
                scope_of(of.instance(), of.device()),
                of.name()@,
                resolution.pointer,
            ),
    {
        let address: usize = self.get_device_proc_addr;
        let get_device_proc = |device: usize, name: &str| -> (pointer: usize)
            requires
                call_requires(call_device_proc, (address, device, name)),
            ensures
                call_ensures(call_device_proc, (address, device, name), pointer),
            { call_device_proc(address, device, name) };
        match of {
            GetProcOf::Device(device, name) => resolve(
                Some(get_device_proc),
                get_instance_proc_addr,
                name,
                0,
                device,
            ),
            GetProcOf::Instance(instance, name) => resolve(
                Some(get_device_proc),
                get_instance_proc_addr,
                name,
                instance,
                0,
            ),
        }
    }
}

} // verus!
