use chaos_vk::vk::{
    find_queue_family, select_physical_device, DeviceChoice, PhysicalDeviceInfo, PhysicalDeviceType,
    QueueFamily,
};

fn family(graphics: bool, surface_support: bool) -> QueueFamily {
    QueueFamily { graphics, surface_support }
}

fn device(device_type: PhysicalDeviceType, khr_swapchain: bool, families: Vec<QueueFamily>) -> PhysicalDeviceInfo {
    PhysicalDeviceInfo { device_type, khr_swapchain, queue_families: families }
}

#[test]
fn discrete_gpu_is_preferred() {
    let devices = vec![
        device(PhysicalDeviceType::Cpu, true, vec![family(true, true)]),
        device(PhysicalDeviceType::IntegratedGpu, true, vec![family(true, true)]),
        device(PhysicalDeviceType::DiscreteGpu, true, vec![family(false, true), family(true, true)]),
        device(PhysicalDeviceType::VirtualGpu, true, vec![family(true, true)]),
    ];
    assert_eq!(
        select_physical_device(&devices),
        Some(DeviceChoice { device: 2, queue_family_index: 1 })
    );
}

#[test]
fn first_of_equal_kind_wins() {
    let devices = vec![
        device(PhysicalDeviceType::Other, true, vec![family(true, true)]),
        device(PhysicalDeviceType::IntegratedGpu, true, vec![family(true, false), family(true, true)]),
        device(PhysicalDeviceType::IntegratedGpu, true, vec![family(true, true)]),
    ];
    assert_eq!(
        select_physical_device(&devices),
        Some(DeviceChoice { device: 1, queue_family_index: 1 })
    );
}

#[test]
fn devices_that_cannot_present_are_passed_over() {
    let devices = vec![
        device(PhysicalDeviceType::DiscreteGpu, false, vec![family(true, true)]),
        device(PhysicalDeviceType::DiscreteGpu, true, vec![family(true, false), family(false, true)]),
        device(PhysicalDeviceType::DiscreteGpu, true, vec![]),
        device(PhysicalDeviceType::Cpu, true, vec![family(true, true)]),
    ];
    assert_eq!(
        select_physical_device(&devices),
        Some(DeviceChoice { device: 3, queue_family_index: 0 })
    );
    assert_eq!(select_physical_device(&devices[..3].iter().map(|d| PhysicalDeviceInfo {
        device_type: d.device_type,
        khr_swapchain: d.khr_swapchain,
        queue_families: d.queue_families.clone(),
    }).collect()), None);
    assert_eq!(select_physical_device(&Vec::new()), None);
}

#[test]
fn preference_ranks_the_kinds() {
    assert_eq!(PhysicalDeviceType::DiscreteGpu.preference(), 0);
    assert_eq!(PhysicalDeviceType::IntegratedGpu.preference(), 1);
    assert_eq!(PhysicalDeviceType::VirtualGpu.preference(), 2);
    assert_eq!(PhysicalDeviceType::Cpu.preference(), 3);
    assert_eq!(PhysicalDeviceType::Other.preference(), 4);
}

#[test]
fn queue_family_must_draw_and_present() {
    assert_eq!(find_queue_family(&vec![family(true, false), family(false, true)]), None);
    assert_eq!(
        find_queue_family(&vec![family(false, false), family(true, true), family(true, true)]),
        Some(1)
    );
    assert_eq!(find_queue_family(&Vec::new()), None);
}
