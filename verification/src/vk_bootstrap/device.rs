//! The choice of the physical device and of the queue family.

use crate::vk;
use vstd::prelude::*;

verus! {

/// The capabilities that the engine needs of a device.
#[derive(Clone, Copy, Debug, PartialEq, Eq, Structural)]
pub struct DeviceFeatures {
    pub buffer_device_address: bool,
    pub descriptor_indexing: bool,
    pub dynamic_rendering: bool,
    pub synchronization2: bool,
}

/// What a queue family can do, and whether it can present to the surface.
#[derive(Clone, Copy, Debug, PartialEq, Eq, Structural)]
pub struct QueueFamily {
    pub queue_flags: u32,
    pub surface_support: bool,
}

/// A physical device as the host found it.
#[derive(Clone, Debug, PartialEq, Eq)]
pub struct PhysicalDeviceInfo {
    pub handle: vk::Handle,
    pub features: DeviceFeatures,
    pub queue_families: Vec<QueueFamily>,
}

/// Whether a queue family takes graphics commands and presents to the
/// surface.
pub open spec fn family_fits(family: QueueFamily) -> bool {
    family.queue_flags & vk::QUEUE_GRAPHICS == vk::QUEUE_GRAPHICS && family.surface_support
}

/// The first fitting family among `families`, if there is one.
pub open spec fn first_fitting(families: Seq<QueueFamily>) -> Option<int>
    decreases families.len(),
{
    if families.len() == 0 {
        None
    } else {
        match first_fitting(families.drop_last()) {
            Some(i) => Some(i),
            None => if family_fits(families.last()) {
                Some(families.len() - 1)
            } else {
                None
            },
        }
    }
}

/// The index of the first fitting family, where it can be written in 32
/// bits.
pub open spec fn spec_surface_supported(families: Seq<QueueFamily>) -> Option<u32> {
    match first_fitting(families) {
        Some(i) => if i <= u32::MAX {
            Some(i as u32)
        } else {
            None
        },
        None => None,
    }
}

/// Whether a device has every capability that the engine needs.
pub open spec fn spec_features_supported(features: DeviceFeatures) -> bool {
    features.buffer_device_address && features.descriptor_indexing && features.dynamic_rendering
        && features.synchronization2
}

/// The queue family to use on a device, if the device is suitable: it has
/// every capability needed, and a family that fits.
pub open spec fn spec_suitable(device: PhysicalDeviceInfo) -> Option<u32> {
    if spec_features_supported(device.features) {
        spec_surface_supported(device.queue_families@)
    } else {
        None
    }
}

/// The first suitable device among `devices`, if there is one.
pub open spec fn first_suitable(devices: Seq<PhysicalDeviceInfo>) -> Option<int>
    decreases devices.len(),
{
    if devices.len() == 0 {
        None
    } else {
        match first_suitable(devices.drop_last()) {
            Some(i) => Some(i),
            None => if spec_suitable(devices.last()) is Some {
                Some(devices.len() - 1)
            } else {
                None
            },
        }
    }
}

proof fn lemma_first_fitting_bounds(families: Seq<QueueFamily>)
    ensures
        first_fitting(families) is Some ==> 0 <= first_fitting(families)->Some_0 < families.len()
            && family_fits(families[first_fitting(families)->Some_0]),
    decreases families.len(),
{
    if families.len() > 0 {
        lemma_first_fitting_bounds(families.drop_last());
    }
}

proof fn lemma_first_fitting_prefix(families: Seq<QueueFamily>, n: int)
    requires
        0 <= n <= families.len(),
        first_fitting(families.take(n)) is Some,
    ensures
        first_fitting(families) == first_fitting(families.take(n)),
    decreases families.len(),
{
    if n == families.len() {
        assert(families.take(n) =~= families);
    } else {
        assert(families.drop_last().take(n) =~= families.take(n));
        lemma_first_fitting_prefix(families.drop_last(), n);
    }
}

proof fn lemma_first_suitable_bounds(devices: Seq<PhysicalDeviceInfo>)
    ensures
        first_suitable(devices) is Some ==> 0 <= first_suitable(devices)->Some_0 < devices.len()
            && spec_suitable(devices[first_suitable(devices)->Some_0]) is Some,
    decreases devices.len(),
{
    if devices.len() > 0 {
        lemma_first_suitable_bounds(devices.drop_last());
    }
}

proof fn lemma_first_suitable_prefix(devices: Seq<PhysicalDeviceInfo>, n: int)
    requires
        0 <= n <= devices.len(),
        first_suitable(devices.take(n)) is Some,
    ensures
        first_suitable(devices) == first_suitable(devices.take(n)),
    decreases devices.len(),
{
    if n == devices.len() {
        assert(devices.take(n) =~= devices);
    } else {
        assert(devices.drop_last().take(n) =~= devices.take(n));
        lemma_first_suitable_prefix(devices.drop_last(), n);
    }
}

/// The family chosen fits and no family before it does; where none is
/// chosen, none fits.
pub proof fn lemma_first_fitting_is_first(families: Seq<QueueFamily>, j: int)
    ensures
        first_fitting(families) is Some ==> 0 <= first_fitting(families)->Some_0 < families.len()
            && family_fits(families[first_fitting(families)->Some_0]),
        first_fitting(families) is Some && 0 <= j < first_fitting(families)->Some_0
            ==> !family_fits(families[j]),
        first_fitting(families) is None && 0 <= j < families.len() ==> !family_fits(families[j]),
    decreases families.len(),
{
    lemma_first_fitting_bounds(families);
    if families.len() > 0 {
        lemma_first_fitting_bounds(families.drop_last());
        lemma_first_fitting_is_first(families.drop_last(), j);
    }
}

/// The device chosen is suitable and no device before it is; where none is
/// chosen, none is suitable.
pub proof fn lemma_first_suitable_is_first(devices: Seq<PhysicalDeviceInfo>, j: int)
    ensures
        first_suitable(devices) is Some ==> 0 <= first_suitable(devices)->Some_0 < devices.len()
            && spec_suitable(devices[first_suitable(devices)->Some_0]) is Some,
        first_suitable(devices) is Some && 0 <= j < first_suitable(devices)->Some_0
            ==> spec_suitable(devices[j]) is None,
        first_suitable(devices) is None && 0 <= j < devices.len() ==> spec_suitable(
            devices[j],
        ) is None,
    decreases devices.len(),
{
    lemma_first_suitable_bounds(devices);
    if devices.len() > 0 {
        lemma_first_suitable_bounds(devices.drop_last());
        lemma_first_suitable_is_first(devices.drop_last(), j);
    }
}

/// Finds the first queue family that takes graphics commands and presents
/// to the surface.
pub fn surface_supported(families: &Vec<QueueFamily>) -> (index: Option<u32>)
    ensures
        index == spec_surface_supported(families@),
{
    let mut i: usize = 0;
    proof {
        assert(families@.take(0) =~= Seq::<QueueFamily>::empty());
    }
    while i < families.len()
        invariant
            i <= families@.len(),
            first_fitting(families@.take(i as int)) is None,
        decreases families@.len() - i,
    {
        let family = families[i];
        proof {
            assert(families@.take(i + 1).drop_last() =~= families@.take(i as int));
            assert(families@.take(i + 1).last() == family);
        }
        if family.queue_flags & vk::QUEUE_GRAPHICS == vk::QUEUE_GRAPHICS && family.surface_support {
            proof {
                lemma_first_fitting_prefix(families@, i + 1);
            }
            if i > 0xFFFF_FFFF {
                return None;
            }
            return Some(i as u32);
        }
        i += 1;
    }
    proof {
        assert(families@.take(i as int) =~= families@);
    }
    None
}

/// Says whether a device has every capability that the engine needs:
/// buffer device addresses, descriptor indexing, dynamic rendering and the
/// second generation of synchronization.
pub fn features_supported(features: &DeviceFeatures) -> (supported: bool)
    ensures
        supported == spec_features_supported(*features),
{
    features.buffer_device_address && features.descriptor_indexing && features.dynamic_rendering
        && features.synchronization2
}

/// Gives the queue family to use on a device, or `None` for a device that
/// lacks a capability or a fitting family.
pub fn is_physical_device_suitable(device: &PhysicalDeviceInfo) -> (family: Option<u32>)
    ensures
        family == spec_suitable(*device),
{
    if features_supported(&device.features) {
        surface_supported(&device.queue_families)
    } else {
        None
    }
}

/// Picks the first suitable device and the queue family to use on it.
///
/// Returns `None` exactly when no device is suitable.
pub fn pick_physical_device_and_queue(devices: &Vec<PhysicalDeviceInfo>) -> (choice: Option<
    (vk::Handle, u32),
>)
    ensures
        match first_suitable(devices@) {
            Some(i) => choice == Some((devices@[i].handle, spec_suitable(devices@[i])->Some_0)),
            None => choice is None,
        },
{
    let mut i: usize = 0;
    proof {
        assert(devices@.take(0) =~= Seq::<PhysicalDeviceInfo>::empty());
    }
    while i < devices.len()
        invariant
            i <= devices@.len(),
            first_suitable(devices@.take(i as int)) is None,
        decreases devices@.len() - i,
    {
        proof {
            assert(devices@.take(i + 1).drop_last() =~= devices@.take(i as int));
            assert(devices@.take(i + 1).last() == devices@[i as int]);
        }
        match is_physical_device_suitable(&devices[i]) {
            Some(queue_family_index) => {
                proof {
                    lemma_first_suitable_prefix(devices@, i + 1);
                }
                return Some((devices[i].handle, queue_family_index));
            },
            None => {},
        }
        i += 1;
    }
    proof {
        assert(devices@.take(i as int) =~= devices@);
    }
    None
}

} // verus!
