use vstd::prelude::*;
use crate::error::{BootstrapError, SuitabilityError};
use crate::queue::{QueueFamilyIndices, QueueFamilyProperties, supports_graphics};

verus! {

/// The class of hardware a physical device belongs to, as the driver
/// reports it.
#[derive(Clone, Copy, Debug, PartialEq, Eq, Structural)]
pub enum DeviceClass {
    Other,
    IntegratedGpu,
    DiscreteGpu,
    VirtualGpu,
    Cpu,
}

/// The driver-reported facts about one physical device that the
/// suitability predicate reads: its class, whether its feature set
/// includes geometry-stage shading, and its queue families in index
/// order.
#[derive(Clone, Debug)]
pub struct PhysicalDeviceInfo {
    pub device_type: DeviceClass,
    pub geometry_shader: bool,
    pub queue_families: Vec<QueueFamilyProperties>,
}

/// The suitability predicate: a device is acceptable when it is a
/// discrete GPU, supports geometry-stage shading, and has at least one
/// graphics-capable queue family.
pub open spec fn spec_suitable(dev: PhysicalDeviceInfo) -> bool {
    &&& dev.device_type == DeviceClass::DiscreteGpu
    &&& dev.geometry_shader
    &&& exists|j: int|
        0 <= j < dev.queue_families@.len() && supports_graphics(#[trigger] dev.queue_families@[j])
}

/// Evaluates the suitability predicate for one candidate, checking the
/// criteria in order and rejecting at the first failed one.
pub fn check_physical_device(dev: &PhysicalDeviceInfo) -> (r: Result<(), SuitabilityError>)
    requires
        dev.queue_families@.len() <= u32::MAX,
    ensures
        r is Ok <==> spec_suitable(*dev),
        dev.device_type != DeviceClass::DiscreteGpu ==> (r matches Err(e)
            && e.0@ == "Only discrete GPUs are supported."@),
        dev.device_type == DeviceClass::DiscreteGpu && !dev.geometry_shader ==> (r matches Err(e)
            && e.0@ == "Missing GeometryShaders support."@),
        dev.device_type == DeviceClass::DiscreteGpu && dev.geometry_shader && !(r is Ok)
            ==> (r matches Err(e)
            && e.0@ == "Unable to find suitable QueueFamilyIndices that are required for support"@),
{
    if !matches!(dev.device_type, DeviceClass::DiscreteGpu) {
        return Err(SuitabilityError("Only discrete GPUs are supported."));
    }
    if !dev.geometry_shader {
        return Err(SuitabilityError("Missing GeometryShaders support."));
    }
    let result = QueueFamilyIndices::get(&dev.queue_families);
    if result.is_err() {
        return Err(SuitabilityError(
            "Unable to find suitable QueueFamilyIndices that are required for support",
        ));
    }
    Ok(())
}

/// Device Selector: returns the index of the first enumerated device
/// that passes the suitability predicate, or `NoSuitableDevice`
/// exactly when none does (in particular when the enumeration is
/// empty).
pub fn pick_physical_device(devices: &Vec<PhysicalDeviceInfo>) -> (r: Result<
    usize,
    BootstrapError,
>)
    requires
        forall|i: int|
            0 <= i < devices@.len() ==> (#[trigger] devices@[i]).queue_families@.len()
                <= u32::MAX,
    ensures
        match r {
            Ok(i) => {
                &&& i < devices@.len()
                &&& spec_suitable(devices@[i as int])
                &&& forall|j: int| 0 <= j < i ==> !spec_suitable(#[trigger] devices@[j])
            },
            Err(e) => {
                &&& e == BootstrapError::NoSuitableDevice
                &&& forall|j: int|
                    0 <= j < devices@.len() ==> !spec_suitable(#[trigger] devices@[j])
            },
        },
{
    let n = devices.len();
    let mut i: usize = 0;
    while i < n
        invariant
            i <= n,
            n == devices@.len(),
            forall|k: int|
                0 <= k < n ==> (#[trigger] devices@[k]).queue_families@.len() <= u32::MAX,
            forall|j: int| 0 <= j < i ==> !spec_suitable(#[trigger] devices@[j]),
        decreases n - i,
    {
        if check_physical_device(&devices[i]).is_ok() {
            return Ok(i);
        }
        i = i + 1;
    }
    Err(BootstrapError::NoSuitableDevice)
}

} // verus!
