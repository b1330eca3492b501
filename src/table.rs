use vstd::prelude::*;
use vstd::string::StringExecFns;
use crate::error::DeviceError;

verus! {

/// The API tier a function table belongs to. Tables of different tiers are
/// resolved through different loaders and are not interchangeable.
#[derive(Clone, Copy, Debug, PartialEq, Eq, Structural)]
pub enum Tier {
    Instance,
    Device,
}

/// Index of each instance-tier entry point in an instance table.
pub const DESTROY_INSTANCE: usize = 0;
pub const ENUMERATE_PHYSICAL_DEVICES: usize = 1;
pub const GET_PHYSICAL_DEVICE_FORMAT_PROPERTIES: usize = 2;
pub const GET_PHYSICAL_DEVICE_MEMORY_PROPERTIES: usize = 3;
pub const GET_PHYSICAL_DEVICE_QUEUE_FAMILY_PROPERTIES: usize = 4;
pub const CREATE_DEVICE: usize = 5;
pub const GET_DEVICE_PROC_ADDR: usize = 6;
pub const ENUMERATE_DEVICE_EXTENSION_PROPERTIES: usize = 7;
pub const GET_PHYSICAL_DEVICE_SURFACE_SUPPORT_KHR: usize = 8;

/// Index of each device-tier entry point in a device table.
pub const DESTROY_DEVICE: usize = 0;
pub const GET_DEVICE_QUEUE: usize = 1;
pub const DEVICE_WAIT_IDLE: usize = 2;
pub const CREATE_SWAPCHAIN_KHR: usize = 3;

/// Number of entry points in a table of the tier.
pub open spec fn entry_count(tier: Tier) -> nat {
    match tier {
        Tier::Instance => 9,
        Tier::Device => 4,
    }
}

/// Name of entry point `i` of the tier, as handed to the resolver.
pub open spec fn entry_name(tier: Tier, i: int) -> &'static str {
    match tier {
        Tier::Instance => {
            if i == 0 {
                "vkDestroyInstance"
            } else if i == 1 {
                "vkEnumeratePhysicalDevices"
            } else if i == 2 {
                "vkGetPhysicalDeviceFormatProperties"
            } else if i == 3 {
                "vkGetPhysicalDeviceMemoryProperties"
            } else if i == 4 {
                "vkGetPhysicalDeviceQueueFamilyProperties"
            } else if i == 5 {
                "vkCreateDevice"
            } else if i == 6 {
                "vkGetDeviceProcAddr"
            } else if i == 7 {
                "vkEnumerateDeviceExtensionProperties"
            } else {
                "vkGetPhysicalDeviceSurfaceSupportKHR"
            }
        },
        Tier::Device => {
            if i == 0 {
                "vkDestroyDevice"
            } else if i == 1 {
                "vkGetDeviceQueue"
            } else if i == 2 {
                "vkDeviceWaitIdle"
            } else {
                "vkCreateSwapchainKHR"
            }
        },
    }
}

/// Whether entry point `i` of the tier is mandatory; extension entry points
/// are optional and may stay unresolved.
pub open spec fn is_required(tier: Tier, i: int) -> bool {
    match tier {
        Tier::Instance => i != 8,
        Tier::Device => i != 3,
    }
}

/// Every mandatory entry point has a non-null address.
pub open spec fn all_required_resolved(tier: Tier, addrs: Seq<u64>) -> bool {
    forall|i: int| 0 <= i < addrs.len() && is_required(tier, i) ==> addrs[i] != 0
}

/// Entry point `i` is the first mandatory one left null.
pub open spec fn is_first_missing(tier: Tier, addrs: Seq<u64>, i: int) -> bool {
    &&& 0 <= i < addrs.len()
    &&& is_required(tier, i)
    &&& addrs[i] == 0
    &&& forall|j: int| 0 <= j < i && is_required(tier, j) ==> addrs[j] != 0
}

impl Tier {
    pub fn entry_count(&self) -> (r: usize)
        ensures
            r == entry_count(*self),
    {
        match self {
            Tier::Instance => 9,
            Tier::Device => 4,
        }
    }

    pub fn entry_name(&self, i: usize) -> (r: &'static str)
        requires
            i < entry_count(*self),
        ensures
            r == entry_name(*self, i as int),
    {
        match self {
            Tier::Instance => {
                if i == 0 {
                    "vkDestroyInstance"
                } else if i == 1 {
                    "vkEnumeratePhysicalDevices"
                } else if i == 2 {
                    "vkGetPhysicalDeviceFormatProperties"
                } else if i == 3 {
                    "vkGetPhysicalDeviceMemoryProperties"
                } else if i == 4 {
                    "vkGetPhysicalDeviceQueueFamilyProperties"
                } else if i == 5 {
                    "vkCreateDevice"
                } else if i == 6 {
                    "vkGetDeviceProcAddr"
                } else if i == 7 {
                    "vkEnumerateDeviceExtensionProperties"
                } else {
                    "vkGetPhysicalDeviceSurfaceSupportKHR"
                }
            },
            Tier::Device => {
                if i == 0 {
                    "vkDestroyDevice"
                } else if i == 1 {
                    "vkGetDeviceQueue"
                } else if i == 2 {
                    "vkDeviceWaitIdle"
                } else {
                    "vkCreateSwapchainKHR"
                }
            },
        }
    }

    pub fn is_required(&self, i: usize) -> (r: bool)
        ensures
            r == is_required(*self, i as int),
    {
        match self {
            Tier::Instance => i != 8,
            Tier::Device => i != 3,
        }
    }
}

/// The resolved entry points of one tier: one address per entry point, zero
/// for an optional entry point that did not resolve. Immutable once built.
pub struct FunctionTable {
    tier: Tier,
    addrs: Vec<u64>,
}

impl FunctionTable {
    #[verifier::type_invariant]
    spec fn well_formed(self) -> bool {
        &&& self.addrs@.len() == entry_count(self.tier)
        &&& all_required_resolved(self.tier, self.addrs@)
    }

    pub closed spec fn spec_tier(&self) -> Tier {
        self.tier
    }

    /// The address of each entry point, in the tier's order.
    pub closed spec fn spec_addrs(&self) -> Seq<u64> {
        self.addrs@
    }

    pub fn tier(&self) -> (r: Tier)
        ensures
            r == self.spec_tier(),
    {
        self.tier
    }

    /// Builds a table from the address resolved for each entry point, failing
    /// on the first mandatory entry point that resolved to null.
    pub fn from_addresses(tier: Tier, addrs: Vec<u64>) -> (r: Result<FunctionTable, DeviceError>)
        requires
            addrs@.len() == entry_count(tier),
        ensures
            r is Ok <==> all_required_resolved(tier, addrs@),
            r matches Ok(t) ==> t.spec_tier() == tier && t.spec_addrs() == addrs@,
            r matches Err(e) ==> exists|i: int|
                is_first_missing(tier, addrs@, i) && (e matches DeviceError::LoadError(n)
                    && n@ == entry_name(tier, i)@),
    {
        let n = tier.entry_count();
        let mut i: usize = 0;
        while i < n
            invariant
                n == addrs@.len(),
                n == entry_count(tier),
                0 <= i <= n,
                forall|j: int| 0 <= j < i && is_required(tier, j) ==> addrs@[j] != 0,
            decreases n - i,
        {
            if tier.is_required(i) && addrs[i] == 0 {
                let name = tier.entry_name(i);
                assert(is_first_missing(tier, addrs@, i as int));
                return Err(DeviceError::LoadError(String::from_str(name)));
            }
            i = i + 1;
        }
        Ok(FunctionTable { tier, addrs })
    }

    /// Resolves every entry point of the tier by name through `resolver`,
    /// which returns zero for a name it cannot resolve. Fails as a whole with
    /// the name of the first mandatory entry point left null.
    pub fn load<F: Fn(&str) -> u64>(tier: Tier, resolver: &F) -> (r: Result<FunctionTable, DeviceError>)
        requires
            forall|i: int| 0 <= i < entry_count(tier) ==> resolver.requires((entry_name(tier, i),)),
        ensures
            r matches Ok(t) ==> t.spec_tier() == tier && forall|i: int|
                0 <= i < entry_count(tier) ==> resolver.ensures((entry_name(tier, i),), #[trigger] t.spec_addrs()[i]),
            r matches Err(e) ==> exists|i: int|
                0 <= i < entry_count(tier) && is_required(tier, i) && resolver.ensures((entry_name(tier, i),), 0u64)
                    && (e matches DeviceError::LoadError(n) && n@ == entry_name(tier, i)@),
            (forall|i: int, a: u64|
                0 <= i < entry_count(tier) && is_required(tier, i) && resolver.ensures((entry_name(tier, i),), a) ==> a != 0)
                ==> r is Ok,
            (exists|i: int|
                0 <= i < entry_count(tier) && is_required(tier, i) && forall|a: u64|
                    resolver.ensures((entry_name(tier, i),), a) ==> a == 0) ==> r is Err,
    {
        let n = tier.entry_count();
        let mut addrs: Vec<u64> = Vec::new();
        let mut i: usize = 0;
        while i < n
            invariant
                n == entry_count(tier),
                0 <= i <= n,
                addrs@.len() == i,
                forall|j: int| 0 <= j < entry_count(tier) ==> resolver.requires((entry_name(tier, j),)),
                forall|j: int| 0 <= j < i ==> resolver.ensures((entry_name(tier, j),), #[trigger] addrs@[j]),
            decreases n - i,
        {
            let name = tier.entry_name(i);
            let a = resolver(name);
            addrs.push(a);
            i = i + 1;
        }
        let ghost seen = addrs@;
        let r = FunctionTable::from_addresses(tier, addrs);
        proof {
            if r is Err {
                let k = choose|k: int| is_first_missing(tier, seen, k);
                assert(resolver.ensures((entry_name(tier, k),), seen[k]));
            } else {
                assert forall|i: int| 0 <= i < entry_count(tier) && is_required(tier, i)
                    implies !(forall|a: u64| resolver.ensures((entry_name(tier, i),), a) ==> a == 0) by {
                    assert(resolver.ensures((entry_name(tier, i),), seen[i]));
                    assert(seen[i] != 0);
                }
            }
        }
        r
    }

    /// The address of a mandatory entry point, which is never null.
    pub fn required_entry(&self, i: usize) -> (r: u64)
        requires
            i < entry_count(self.spec_tier()),
            is_required(self.spec_tier(), i as int),
        ensures
            r == self.spec_addrs()[i as int],
            r != 0,
    {
        proof {
            use_type_invariant(self);
        }
        self.addrs[i]
    }

    /// The address of entry point `i`; an optional entry point that did not
    /// resolve gives `Unsupported` instead of a null address.
    pub fn entry(&self, i: usize) -> (r: Result<u64, DeviceError>)
        requires
            i < entry_count(self.spec_tier()),
        ensures
            r is Ok <==> self.spec_addrs()[i as int] != 0,
            is_required(self.spec_tier(), i as int) ==> r is Ok,
            r matches Ok(a) ==> a == self.spec_addrs()[i as int],
            r matches Err(e) ==> (e matches DeviceError::Unsupported(n)
                && n@ == entry_name(self.spec_tier(), i as int)@),
    {
        proof {
            use_type_invariant(self);
        }
        if self.addrs[i] != 0 {
            Ok(self.addrs[i])
        } else {
            let name = self.tier.entry_name(i);
            Err(DeviceError::Unsupported(String::from_str(name)))
        }
    }
}

} // verus!
