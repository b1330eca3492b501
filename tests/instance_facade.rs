use ash::device::Device;
use ash::error::DeviceError;
use ash::instance::Instance;
use ash::status::Status;
use ash::table::{
    FunctionTable, Tier, CREATE_DEVICE, DESTROY_INSTANCE, ENUMERATE_PHYSICAL_DEVICES,
    GET_DEVICE_PROC_ADDR, GET_PHYSICAL_DEVICE_QUEUE_FAMILY_PROPERTIES,
};
use std::cell::RefCell;

const INSTANCE_HANDLE: u64 = 0xabc;

fn address_of(name: &str) -> u64 {
    name.len() as u64 + 0x1000
}

fn instance(surface_support_resolves: bool) -> Instance {
    let table = FunctionTable::load(Tier::Instance, &|name: &str| {
        if name == "vkGetPhysicalDeviceSurfaceSupportKHR" && !surface_support_resolves {
            0
        } else {
            address_of(name)
        }
    })
    .unwrap();
    Instance::from_raw(INSTANCE_HANDLE, table)
}

fn addr(i: usize) -> u64 {
    address_of(Tier::Instance.entry_name(i))
}

#[test]
fn handle_is_kept() {
    assert_eq!(instance(true).handle(), INSTANCE_HANDLE);
}

#[test]
fn three_physical_devices_are_listed() {
    let seen: RefCell<Vec<Option<u32>>> = RefCell::new(Vec::new());
    let r = instance(true).enumerate_physical_devices(&|a: u64, h: u64, c: Option<u32>| {
        assert_eq!(a, addr(ENUMERATE_PHYSICAL_DEVICES));
        assert_eq!(h, INSTANCE_HANDLE);
        seen.borrow_mut().push(c);
        match c {
            None => (Status::success(), 3, Vec::new()),
            Some(_) => (Status::success(), 3, vec![101, 102, 103]),
        }
    });
    assert_eq!(*seen.borrow(), vec![None, Some(3)]);
    assert_eq!(r.unwrap().len(), 3);
}

#[test]
fn failed_second_call_yields_its_status() {
    let r = instance(true).enumerate_physical_devices(&|_a: u64, _h: u64, c: Option<u32>| match c {
        None => (Status::success(), 3, Vec::new()),
        Some(_) => (Status::from_raw(-2), 2, vec![101, 102]),
    });
    assert_eq!(r, Err(Status::from_raw(-2)));
}

#[test]
fn repeated_query_agrees() {
    let inst = instance(true);
    let call = |_a: u64, _h: u64, c: Option<u32>| match c {
        None => (Status::success(), 2, Vec::new()),
        Some(_) => (Status::success(), 2, vec![7, 8]),
    };
    let first = inst.enumerate_physical_devices(&call);
    let second = inst.enumerate_physical_devices(&call);
    assert_eq!(first, second);
    assert_eq!(first, Ok(vec![7, 8]));
}

#[test]
fn extension_properties_are_listed_for_the_device() {
    let r = instance(true).enumerate_device_extension_properties(55, &|_a: u64, d: u64, c: Option<u32>| {
        assert_eq!(d, 55);
        match c {
            None => (Status::success(), 2, Vec::new()),
            Some(n) => (Status::success(), n, vec!["VK_KHR_swapchain", "VK_KHR_maintenance1"]),
        }
    });
    assert_eq!(r, Ok(vec!["VK_KHR_swapchain", "VK_KHR_maintenance1"]));
}

#[test]
fn no_extensions_is_an_empty_success() {
    let r = instance(true).enumerate_device_extension_properties(55, &|_a: u64, _d: u64, _c: Option<u32>| {
        (Status::success(), 0, Vec::<u32>::new())
    });
    assert_eq!(r, Ok(Vec::new()));
}

#[test]
fn queue_families_are_listed() {
    let r = instance(true).get_physical_device_queue_family_properties(9, &|a: u64, _p: u64, c: Option<u32>| {
        assert_eq!(a, addr(GET_PHYSICAL_DEVICE_QUEUE_FAMILY_PROPERTIES));
        match c {
            None => (2, Vec::new()),
            Some(_) => (2, vec![(1u32, 16u32), (4, 1)]),
        }
    });
    assert_eq!(r, vec![(1, 16), (4, 1)]);
}

#[test]
fn single_value_queries_dispatch_through_the_table() {
    let inst = instance(true);
    let f = inst.get_physical_device_format_properties(9, 37, &|_a: u64, p: u64, fmt: i32| (p, fmt));
    assert_eq!(f, (9, 37));
    let m = inst.get_physical_device_memory_properties(9, &|a: u64, p: u64| (a, p));
    assert_eq!(m, (address_of("vkGetPhysicalDeviceMemoryProperties"), 9));
}

#[test]
fn destroy_calls_the_destroy_entry_with_the_handle() {
    let seen: RefCell<Vec<(u64, u64)>> = RefCell::new(Vec::new());
    instance(true).destroy_instance(&|a: u64, h: u64| seen.borrow_mut().push((a, h)));
    assert_eq!(*seen.borrow(), vec![(addr(DESTROY_INSTANCE), INSTANCE_HANDLE)]);
}

#[test]
fn device_proc_addr_passes_the_name_through() {
    let r = instance(true).get_device_proc_addr(77, "vkDestroyDevice", &|a: u64, d: u64, n: &str| {
        assert_eq!(a, addr(GET_DEVICE_PROC_ADDR));
        d + n.len() as u64
    });
    assert_eq!(r, 77 + 15);
}

#[test]
fn unresolved_optional_entry_is_unsupported() {
    let r = instance(false).get_physical_device_surface_support_khr(1, 0, 2, &|_a: u64, _p: u64, _q: u32, _s: u64| {
        panic!("an unresolved entry point must not be called")
    });
    match r {
        Err(DeviceError::Unsupported(n)) => assert_eq!(n, "vkGetPhysicalDeviceSurfaceSupportKHR"),
        _ => panic!("expected unsupported"),
    }
}

#[test]
fn resolved_optional_entry_is_called() {
    let inst = instance(true);
    let ok = inst.get_physical_device_surface_support_khr(1, 0, 2, &|_a: u64, _p: u64, _q: u32, _s: u64| {
        (Status::success(), true)
    });
    assert!(matches!(ok, Ok(true)));
    let err = inst.get_physical_device_surface_support_khr(1, 0, 2, &|_a: u64, _p: u64, _q: u32, _s: u64| {
        (Status::from_raw(-1000000000), false)
    });
    assert!(matches!(err, Err(DeviceError::VkError(s)) if s.as_raw() == -1000000000));
}

#[test]
fn create_device_loads_its_table() {
    let d = instance(true)
        .create_device(
            9,
            &|a: u64, p: u64| {
                assert_eq!(a, addr(CREATE_DEVICE));
                (Status::success(), p + 1000)
            },
            &|a: u64, dev: u64, name: &str| {
                assert_eq!(a, addr(GET_DEVICE_PROC_ADDR));
                assert_eq!(dev, 1009);
                if name == "vkCreateSwapchainKHR" { 0 } else { address_of(name) }
            },
        )
        .unwrap();
    assert_eq!(d.handle(), 1009);
    assert_eq!(d.device_fn().tier(), Tier::Device);
    assert_eq!(d.device_fn().required_entry(0), address_of("vkDestroyDevice"));
    assert!(matches!(d.device_fn().entry(3), Err(DeviceError::Unsupported(_))));
}

#[test]
fn create_device_failure_returns_the_status() {
    let r = instance(true).create_device(
        9,
        &|_a: u64, _p: u64| (Status::from_raw(-3), 0),
        &|_a: u64, _d: u64, _n: &str| panic!("nothing is loaded after a failed creation"),
    );
    assert!(matches!(r, Err(DeviceError::VkError(s)) if s == Status::from_raw(-3)));
}

#[test]
fn create_device_reports_a_missing_device_entry() {
    let r = instance(true).create_device(
        9,
        &|_a: u64, _p: u64| (Status::success(), 5),
        &|_a: u64, _d: u64, name: &str| if name == "vkDeviceWaitIdle" { 0 } else { 1 },
    );
    match r {
        Err(DeviceError::LoadError(n)) => assert_eq!(n, "vkDeviceWaitIdle"),
        _ => panic!("expected a load error"),
    }
}

#[test]
fn device_from_raw_keeps_handle_and_table() {
    let table = FunctionTable::from_addresses(Tier::Device, vec![4, 5, 6, 7]).unwrap();
    let d = Device::from_raw(31, table);
    assert_eq!(d.handle(), 31);
    assert_eq!(d.device_fn().entry(3).unwrap(), 7);
}
