//! Choice of the physical device and of the queue family to draw and
//! present with.

use vstd::prelude::*;

verus! {

/// The kind of a physical device.
#[derive(Clone, Copy, Debug, PartialEq, Eq, Structural)]
pub enum PhysicalDeviceType {
    DiscreteGpu,
    IntegratedGpu,
    VirtualGpu,
    Cpu,
    Other,
}

/// What a queue family can do, as far as the choice reads it.
#[derive(Clone, Copy, Debug, PartialEq, Eq, Structural)]
pub struct QueueFamily {
    /// The family takes graphics work.
    pub graphics: bool,
    /// The family can present to the surface.
    pub surface_support: bool,
}

/// What a physical device reports about itself.
#[derive(Debug)]
pub struct PhysicalDeviceInfo {
    pub device_type: PhysicalDeviceType,
    /// The device supports the swapchain extension.
    pub khr_swapchain: bool,
    pub queue_families: Vec<QueueFamily>,
}

/// A device and the queue family to use on it, both by position.
#[derive(Clone, Copy, Debug, PartialEq, Eq, Structural)]
pub struct DeviceChoice {
    pub device: usize,
    pub queue_family_index: usize,
}

impl PhysicalDeviceType {
    /// How little a kind of device is wanted: a discrete GPU most of all.
    pub open spec fn rank(self) -> int {
        match self {
            PhysicalDeviceType::DiscreteGpu => 0,
            PhysicalDeviceType::IntegratedGpu => 1,
            PhysicalDeviceType::VirtualGpu => 2,
            PhysicalDeviceType::Cpu => 3,
            PhysicalDeviceType::Other => 4,
        }
    }

    /// The rank of the kind, lower being better.
    pub fn preference(&self) -> (rank: u8)
        ensures
            rank == self.rank(),
    {
        match self {
            PhysicalDeviceType::DiscreteGpu => 0,
            PhysicalDeviceType::IntegratedGpu => 1,
            PhysicalDeviceType::VirtualGpu => 2,
            PhysicalDeviceType::Cpu => 3,
            PhysicalDeviceType::Other => 4,
        }
    }
}

impl QueueFamily {
    /// The family can both draw and present.
    pub open spec fn usable(self) -> bool {
        self.graphics && self.surface_support
    }
}

/// `index` is the position of the first family that can draw and present.
pub open spec fn first_usable_family(families: Seq<QueueFamily>, index: int) -> bool {
    &&& 0 <= index < families.len()
    &&& families[index].usable()
    &&& forall|j: int| 0 <= j < index ==> !(#[trigger] families[j]).usable()
}

/// The device supports swapchains and has a family that can draw and present.
pub open spec fn eligible(device: PhysicalDeviceInfo) -> bool {
    device.khr_swapchain && exists|i: int|
        0 <= i < device.queue_families@.len() && (#[trigger] device.queue_families@[i]).usable()
}

/// `choice` names the best device: it is eligible, the family is its first
/// usable one, no eligible device ranks better, and none of equal rank
/// comes earlier.
pub open spec fn best_choice(devices: Seq<PhysicalDeviceInfo>, choice: DeviceChoice) -> bool {
    &&& choice.device < devices.len()
    &&& devices[choice.device as int].khr_swapchain
    &&& first_usable_family(
        devices[choice.device as int].queue_families@,
        choice.queue_family_index as int,
    )
    &&& forall|j: int|
        0 <= j < devices.len() && eligible(#[trigger] devices[j]) ==> {
            ||| devices[choice.device as int].device_type.rank() < devices[j].device_type.rank()
            ||| (devices[choice.device as int].device_type.rank() == devices[j].device_type.rank()
                && choice.device <= j)
        }
}

/// Finds the first queue family that can draw and present.
pub fn find_queue_family(families: &Vec<QueueFamily>) -> (found: Option<usize>)
    ensures
        match found {
            Some(index) => first_usable_family(families@, index as int),
            None => forall|j: int| 0 <= j < families@.len() ==> !(#[trigger] families@[j]).usable(),
        },
{
    let mut i: usize = 0;
    while i < families.len()
        invariant
            i <= families.len(),
            forall|j: int| 0 <= j < i ==> !(#[trigger] families@[j]).usable(),
        decreases families.len() - i,
    {
        if families[i].graphics && families[i].surface_support {
            return Some(i);
        }
        i = i + 1;
    }
    None
}

/// Chooses the device to render with: among the devices that support
/// swapchains and have a queue family that can draw and present, the one of
/// the most wanted kind, and among equals the first. There is a choice
/// exactly when some device is eligible.
pub fn select_physical_device(devices: &Vec<PhysicalDeviceInfo>) -> (choice: Option<DeviceChoice>)
    ensures
        match choice {
            Some(choice) => best_choice(devices@, choice),
            None => forall|j: int| 0 <= j < devices@.len() ==> !eligible(#[trigger] devices@[j]),
        },
{
    let mut best: Option<DeviceChoice> = None;
    let mut best_rank: u8 = 5;
    let mut i: usize = 0;
    while i < devices.len()
        invariant
            i <= devices.len(),
            match best {
                Some(choice) => {
                    &&& choice.device < i
                    &&& devices@[choice.device as int].khr_swapchain
                    &&& first_usable_family(
                        devices@[choice.device as int].queue_families@,
                        choice.queue_family_index as int,
                    )
                    &&& best_rank == devices@[choice.device as int].device_type.rank()
                    &&& forall|j: int|
                        0 <= j < i && eligible(#[trigger] devices@[j]) ==> {
                            ||| best_rank < devices@[j].device_type.rank()
                            ||| (best_rank == devices@[j].device_type.rank() && choice.device <= j)
                        }
                },
                None => best_rank == 5 && forall|j: int|
                    0 <= j < i ==> !eligible(#[trigger] devices@[j]),
            },
        decreases devices.len() - i,
    {
        if devices[i].khr_swapchain {
            match find_queue_family(&devices[i].queue_families) {
                Some(queue_family_index) => {
                    let rank = devices[i].device_type.preference();
                    if rank < best_rank {
                        best = Some(DeviceChoice { device: i, queue_family_index });
                        best_rank = rank;
                    }
                },
                None => {},
            }
        }
        i = i + 1;
    }
    best
}

} // verus!
