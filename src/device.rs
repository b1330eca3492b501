use vstd::prelude::*;
use crate::table::{FunctionTable, Tier};

verus! {

/// A device: the driver's handle for it and its device-tier function table.
/// Holds nothing of the instance it was created from.
pub struct Device {
    handle: u64,
    device_fn: FunctionTable,
}

impl Device {
    #[verifier::type_invariant]
    spec fn well_formed(self) -> bool {
        self.device_fn.spec_tier() == Tier::Device
    }

    pub closed spec fn spec_handle(&self) -> u64 {
        self.handle
    }

    pub closed spec fn spec_device_fn(&self) -> FunctionTable {
        self.device_fn
    }

    /// Pairs a device handle with a device-tier table resolved for it.
    pub fn from_raw(handle: u64, device_fn: FunctionTable) -> (r: Device)
        requires
            device_fn.spec_tier() == Tier::Device,
        ensures
            r.spec_handle() == handle,
            r.spec_device_fn() == device_fn,
    {
        Device { handle, device_fn }
    }

    pub fn handle(&self) -> (r: u64)
        ensures
            r == self.spec_handle(),
    {
        self.handle
    }

    pub fn device_fn(&self) -> (r: &FunctionTable)
        ensures
            *r == self.spec_device_fn(),
            r.spec_tier() == Tier::Device,
    {
        proof {
            use_type_invariant(self);
        }
        &self.device_fn
    }
}

} // verus!
