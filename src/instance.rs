use vstd::prelude::*;
use crate::device::Device;
use crate::enumerate::{
    committed_len,
    enumerate_two_call,
    enumeration_result,
    finish_enumeration,
    result_seq,
    Answer,
};
use crate::error::DeviceError;
use crate::status::{result_from_status, Status};
use crate::table::{
    entry_count,
    entry_name,
    is_required,
    FunctionTable,
    Tier,
    CREATE_DEVICE,
    DESTROY_INSTANCE,
    ENUMERATE_DEVICE_EXTENSION_PROPERTIES,
    ENUMERATE_PHYSICAL_DEVICES,
    GET_DEVICE_PROC_ADDR,
    GET_PHYSICAL_DEVICE_FORMAT_PROPERTIES,
    GET_PHYSICAL_DEVICE_MEMORY_PROPERTIES,
    GET_PHYSICAL_DEVICE_QUEUE_FAMILY_PROPERTIES,
    GET_PHYSICAL_DEVICE_SURFACE_SUPPORT_KHR,
};

verus! {

/// `r` is what loading the device-tier table of `device` through `resolve`,
/// bound to the address `gdpa` of the instance's device resolver, may give:
/// a device holding `device` and every address `resolve` returned; or the
/// name of a mandatory entry point it left null, the only way loading fails.
pub open spec fn loaded_through<R: Fn(u64, u64, &str) -> u64>(
    resolve: R,
    gdpa: u64,
    device: u64,
    r: Result<Device, DeviceError>,
) -> bool {
    &&& r matches Ok(d) ==> {
        &&& d.spec_handle() == device
        &&& d.spec_device_fn().spec_tier() == Tier::Device
        &&& forall|i: int|
            0 <= i < entry_count(Tier::Device) ==> resolve.ensures(
                (gdpa, device, entry_name(Tier::Device, i)),
                #[trigger] d.spec_device_fn().spec_addrs()[i],
            )
    }
    &&& r matches Err(e) ==> exists|i: int|
        0 <= i < entry_count(Tier::Device) && is_required(Tier::Device, i) && resolve.ensures(
            (gdpa, device, entry_name(Tier::Device, i)),
            0u64,
        ) && (e matches DeviceError::LoadError(n) && n@ == entry_name(Tier::Device, i)@)
    &&& (forall|i: int, a: u64|
        0 <= i < entry_count(Tier::Device) && is_required(Tier::Device, i) && resolve.ensures(
            (gdpa, device, entry_name(Tier::Device, i)),
            a,
        ) ==> a != 0) ==> r is Ok
}

/// An instance: the driver's handle for it and its instance-tier function
/// table. Each native operation is performed by a caller-supplied call, which
/// this facade hands the address of the entry point from its own table, and
/// the handles the operation concerns.
pub struct Instance {
    handle: u64,
    instance_fn: FunctionTable,
}

impl Instance {
    #[verifier::type_invariant]
    spec fn well_formed(self) -> bool {
        self.instance_fn.spec_tier() == Tier::Instance
    }

    pub closed spec fn spec_handle(&self) -> u64 {
        self.handle
    }

    pub closed spec fn spec_instance_fn(&self) -> FunctionTable {
        self.instance_fn
    }

    /// The address that the instance's table holds for entry point `i`.
    pub open spec fn addr(&self, i: usize) -> u64 {
        self.spec_instance_fn().spec_addrs()[i as int]
    }

    pub fn handle(&self) -> (r: u64)
        ensures
            r == self.spec_handle(),
    {
        self.handle
    }

    /// Pairs an instance handle with an instance-tier table already resolved
    /// for it; resolves nothing itself.
    pub fn from_raw(handle: u64, instance_fn: FunctionTable) -> (r: Instance)
        requires
            instance_fn.spec_tier() == Tier::Instance,
        ensures
            r.spec_handle() == handle,
            r.spec_instance_fn() == instance_fn,
    {
        Instance { handle, instance_fn }
    }

    fn entry(&self, i: usize) -> (r: u64)
        requires
            i < entry_count(Tier::Instance),
            is_required(Tier::Instance, i as int),
        ensures
            r == self.addr(i),
            r != 0,
    {
        proof {
            use_type_invariant(self);
        }
        self.instance_fn.required_entry(i)
    }

    /// Lists the extension properties of a physical device by the two-call
    /// protocol: the second call gets exactly the capacity the first
    /// reported, and only its status decides the outcome.
    pub fn enumerate_device_extension_properties<T, F: Fn(u64, u64, Option<u32>) -> Answer<T>>(
        &self,
        device: u64,
        call: &F,
    ) -> (r: Result<Vec<T>, Status>)
        requires
            forall|c: Option<u32>| call.requires((self.addr(ENUMERATE_DEVICE_EXTENSION_PROPERTIES), device, c)),
        ensures
            exists|first: Answer<T>, second: Answer<T>|
                call.ensures((self.addr(ENUMERATE_DEVICE_EXTENSION_PROPERTIES), device, None), first)
                    && call.ensures(
                    (self.addr(ENUMERATE_DEVICE_EXTENSION_PROPERTIES), device, Some(first.1)),
                    second,
                ) && result_seq(r) == enumeration_result(first.1, second.0, second.1, second.2@),
    {
        let addr = self.entry(ENUMERATE_DEVICE_EXTENSION_PROPERTIES);
        let query = |c: Option<u32>| -> (a: Answer<T>)
            requires
                call.requires((addr, device, c)),
            ensures
                call.ensures((addr, device, c), a),
            { call(addr, device, c) };
        enumerate_two_call(&query)
    }

    /// Lists the physical devices of the instance by the two-call protocol.
    pub fn enumerate_physical_devices<F: Fn(u64, u64, Option<u32>) -> Answer<u64>>(&self, call: &F) -> (r:
        Result<Vec<u64>, Status>)
        requires
            forall|c: Option<u32>| call.requires((self.addr(ENUMERATE_PHYSICAL_DEVICES), self.spec_handle(), c)),
        ensures
            exists|first: Answer<u64>, second: Answer<u64>|
                call.ensures((self.addr(ENUMERATE_PHYSICAL_DEVICES), self.spec_handle(), None), first)
                    && call.ensures(
                    (self.addr(ENUMERATE_PHYSICAL_DEVICES), self.spec_handle(), Some(first.1)),
                    second,
                ) && result_seq(r) == enumeration_result(first.1, second.0, second.1, second.2@),
    {
        let addr = self.entry(ENUMERATE_PHYSICAL_DEVICES);
        let handle = self.handle;
        let query = |c: Option<u32>| -> (a: Answer<u64>)
            requires
                call.requires((addr, handle, c)),
            ensures
                call.ensures((addr, handle, c), a),
            { call(addr, handle, c) };
        assert(handle == self.spec_handle());
        enumerate_two_call(&query)
    }

    /// Lists the queue families of a physical device by the two-call
    /// protocol. The native call reports no status, so this cannot fail.
    pub fn get_physical_device_queue_family_properties<T, F: Fn(u64, u64, Option<u32>) -> (u32, Vec<T>)>(
        &self,
        physical_device: u64,
        call: &F,
    ) -> (r: Vec<T>)
        requires
            forall|c: Option<u32>|
                call.requires((self.addr(GET_PHYSICAL_DEVICE_QUEUE_FAMILY_PROPERTIES), physical_device, c)),
        ensures
            exists|first: (u32, Vec<T>), second: (u32, Vec<T>)|
                call.ensures((self.addr(GET_PHYSICAL_DEVICE_QUEUE_FAMILY_PROPERTIES), physical_device, None), first)
                    && call.ensures(
                    (self.addr(GET_PHYSICAL_DEVICE_QUEUE_FAMILY_PROPERTIES), physical_device, Some(first.0)),
                    second,
                ) && r@ == second.1@.take(committed_len(first.0, second.0, second.1@.len()) as int),
    {
        let addr = self.entry(GET_PHYSICAL_DEVICE_QUEUE_FAMILY_PROPERTIES);
        let first = call(addr, physical_device, None);
        let count = first.0;
        let second = call(addr, physical_device, Some(count));
        let (reported, data) = second;
        let ghost written = data@;
        match finish_enumeration(count, Status::success(), reported, data) {
            Ok(v) => {
                assert(call.ensures((addr, physical_device, Some(first.0)), (reported, data)));
                v
            },
            Err(_) => Vec::new(),
        }
    }

    /// The format properties of a physical device for one format.
    pub fn get_physical_device_format_properties<T, F: Fn(u64, u64, i32) -> T>(
        &self,
        physical_device: u64,
        format: i32,
        call: &F,
    ) -> (r: T)
        requires
            call.requires((self.addr(GET_PHYSICAL_DEVICE_FORMAT_PROPERTIES), physical_device, format)),
        ensures
            call.ensures((self.addr(GET_PHYSICAL_DEVICE_FORMAT_PROPERTIES), physical_device, format), r),
    {
        let addr = self.entry(GET_PHYSICAL_DEVICE_FORMAT_PROPERTIES);
        call(addr, physical_device, format)
    }

    /// The memory properties of a physical device.
    pub fn get_physical_device_memory_properties<T, F: Fn(u64, u64) -> T>(&self, physical_device: u64, call: &F) -> (r:
        T)
        requires
            call.requires((self.addr(GET_PHYSICAL_DEVICE_MEMORY_PROPERTIES), physical_device)),
        ensures
            call.ensures((self.addr(GET_PHYSICAL_DEVICE_MEMORY_PROPERTIES), physical_device), r),
    {
        let addr = self.entry(GET_PHYSICAL_DEVICE_MEMORY_PROPERTIES);
        call(addr, physical_device)
    }

    /// Releases the instance through its destroy entry point. Nothing else may
    /// be called on the instance afterwards; nothing is released implicitly.
    pub fn destroy_instance<D: Fn(u64, u64)>(&self, call: &D)
        requires
            call.requires((self.addr(DESTROY_INSTANCE), self.spec_handle())),
        ensures
            call.ensures((self.addr(DESTROY_INSTANCE), self.spec_handle()), ()),
    {
        let addr = self.entry(DESTROY_INSTANCE);
        call(addr, self.handle)
    }

    /// Resolves a device-tier entry point by name for `device`; zero where the
    /// driver has none.
    pub fn get_device_proc_addr<R: Fn(u64, u64, &str) -> u64>(&self, device: u64, name: &str, resolve: &R) -> (r:
        u64)
        requires
            resolve.requires((self.addr(GET_DEVICE_PROC_ADDR), device, name)),
        ensures
            resolve.ensures((self.addr(GET_DEVICE_PROC_ADDR), device, name), r),
    {
        let addr = self.entry(GET_DEVICE_PROC_ADDR);
        resolve(addr, device, name)
    }

    /// Creates a device from a physical device, then loads its device-tier
    /// table through the instance's device resolver. A non-success status from
    /// the creation call is returned as is, and nothing is loaded.
    pub fn create_device<C: Fn(u64, u64) -> (Status, u64), R: Fn(u64, u64, &str) -> u64>(
        &self,
        physical_device: u64,
        create: &C,
        resolve: &R,
    ) -> (r: Result<Device, DeviceError>)
        requires
            create.requires((self.addr(CREATE_DEVICE), physical_device)),
            forall|d: u64, n: &str| resolve.requires((self.addr(GET_DEVICE_PROC_ADDR), d, n)),
        ensures
            exists|created: (Status, u64)|
                create.ensures((self.addr(CREATE_DEVICE), physical_device), created) && if created.0.spec_is_success() {
                    loaded_through(*resolve, self.addr(GET_DEVICE_PROC_ADDR), created.1, r)
                } else {
                    r matches Err(e) && e == DeviceError::VkError(created.0)
                },
    {
        let create_addr = self.entry(CREATE_DEVICE);
        let gdpa = self.entry(GET_DEVICE_PROC_ADDR);
        let created = create(create_addr, physical_device);
        let (status, device) = created;
        if !status.is_success() {
            return Err(DeviceError::VkError(status));
        }
        let resolver = |name: &str| -> (a: u64)
            requires
                resolve.requires((gdpa, device, name)),
            ensures
                resolve.ensures((gdpa, device, name), a),
            { resolve(gdpa, device, name) };
        match FunctionTable::load(Tier::Device, &resolver) {
            Ok(device_fn) => Ok(Device::from_raw(device, device_fn)),
            Err(e) => Err(e),
        }
    }

    /// Whether a queue family of a physical device can present to a surface.
    /// This is an extension entry point: where it did not resolve, the result
    /// is `Unsupported` and nothing is called.
    pub fn get_physical_device_surface_support_khr<F: Fn(u64, u64, u32, u64) -> (Status, bool)>(
        &self,
        physical_device: u64,
        queue_family_index: u32,
        surface: u64,
        call: &F,
    ) -> (r: Result<bool, DeviceError>)
        requires
            call.requires(
                (self.addr(GET_PHYSICAL_DEVICE_SURFACE_SUPPORT_KHR), physical_device, queue_family_index, surface),
            ),
        ensures
            self.addr(GET_PHYSICAL_DEVICE_SURFACE_SUPPORT_KHR) == 0 ==> (r matches Err(e) && e
                matches DeviceError::Unsupported(n) && n@ == entry_name(
                Tier::Instance,
                GET_PHYSICAL_DEVICE_SURFACE_SUPPORT_KHR as int,
            )@),
            self.addr(GET_PHYSICAL_DEVICE_SURFACE_SUPPORT_KHR) != 0 ==> exists|answer: (Status, bool)|
                call.ensures(
                    (self.addr(GET_PHYSICAL_DEVICE_SURFACE_SUPPORT_KHR), physical_device, queue_family_index, surface),
                    answer,
                ) && if answer.0.spec_is_success() {
                    r == Ok::<bool, DeviceError>(answer.1)
                } else {
                    r matches Err(e) && e == DeviceError::VkError(answer.0)
                },
    {
        proof {
            use_type_invariant(self);
        }
        let addr = match self.instance_fn.entry(GET_PHYSICAL_DEVICE_SURFACE_SUPPORT_KHR) {
            Ok(a) => a,
            Err(e) => {
                return Err(e);
            },
        };
        let answer = call(addr, physical_device, queue_family_index, surface);
        let (status, supported) = answer;
        match result_from_status(status, supported) {
            Ok(b) => Ok(b),
            Err(s) => Err(DeviceError::VkError(s)),
        }
    }
}

} // verus!
