use vstd::prelude::*;
use crate::instance::{spec_instance_layers, spec_portability_applies, validation_layer};
use crate::queue::QueueFamilyIndices;
use crate::version::{portability_min_version, Version};

verus! {

/// Device-level portability extension appended under the same
/// platform/version condition as the instance-level shims.
pub open spec fn spec_portability_subset_extension() -> Seq<char> {
    "VK_KHR_portability_subset"@
}

/// Executable counterpart of [`spec_portability_subset_extension`].
pub fn portability_subset_extension() -> (s: String)
    ensures
        s@ == spec_portability_subset_extension(),
{
    String::from_str("VK_KHR_portability_subset")
}

/// The device extension list: empty by default, exactly the
/// portability-subset extension when the portability condition holds.
pub open spec fn spec_device_extensions(macos: bool, driver_version: Version) -> Seq<Seq<char>> {
    if spec_portability_applies(macos, driver_version) {
        seq![spec_portability_subset_extension()]
    } else {
        Seq::<Seq<char>>::empty()
    }
}

/// One queue-creation request: which family, and how many queues of
/// it. The single queue is requested at the driver's full priority,
/// which the caller of the driver supplies verbatim.
#[derive(Clone, Copy, Debug, PartialEq, Eq, Structural)]
pub struct QueueRequest {
    pub family_index: u32,
    pub queue_count: u32,
}

/// A handle-to-be: which execution stream to retrieve once the
/// logical device exists, identified by (family index,
/// index-within-family).
#[derive(Clone, Copy, Debug, PartialEq, Eq, Structural)]
pub struct QueueHandle {
    pub family_index: u32,
    pub queue_index: u32,
}

/// Everything the device-creation driver call needs: the queue
/// requests, the renegotiated layers and extensions, and which queue
/// to retrieve afterwards. The feature set requested is the default,
/// all-disabled one.
#[derive(Clone, Debug)]
pub struct DevicePlan {
    pub queue_requests: Vec<QueueRequest>,
    pub layers: Vec<String>,
    pub extensions: Vec<String>,
    pub graphics_queue: QueueHandle,
}

/// True when `plan` is exactly the device plan owed for these inputs.
pub open spec fn spec_device_plan_for(
    plan: DevicePlan,
    indices: QueueFamilyIndices,
    diagnostics: bool,
    macos: bool,
    driver_version: Version,
) -> bool {
    &&& plan.queue_requests@.len() == 1
    &&& plan.queue_requests@[0] == (QueueRequest {
        family_index: indices.graphics,
        queue_count: 1,
    })
    &&& plan.layers.deep_view() == spec_instance_layers(diagnostics)
    &&& plan.extensions.deep_view() == spec_device_extensions(macos, driver_version)
    &&& plan.graphics_queue == (QueueHandle { family_index: indices.graphics, queue_index: 0 })
}

/// Logical Device Builder: one queue request for the graphics family
/// with a single queue, the same layer negotiation as the Instance
/// Builder, the portability-subset extension under the same
/// platform/version condition (checked independently here), and the
/// graphics queue at slot 0 of the resolved family.
pub fn plan_logical_device(
    indices: &QueueFamilyIndices,
    diagnostics: bool,
    macos: bool,
    driver_version: Version,
) -> (plan: DevicePlan)
    ensures
        spec_device_plan_for(plan, *indices, diagnostics, macos, driver_version),
{
    let mut queue_requests: Vec<QueueRequest> = Vec::new();
    queue_requests.push(QueueRequest { family_index: indices.graphics, queue_count: 1 });

    let mut layers: Vec<String> = Vec::new();
    if diagnostics {
        layers.push(validation_layer());
    }
    assert(layers.deep_view() =~= spec_instance_layers(diagnostics));

    let mut extensions: Vec<String> = Vec::new();
    if macos && driver_version.at_least(&portability_min_version()) {
        extensions.push(portability_subset_extension());
    }
    assert(extensions.deep_view() =~= spec_device_extensions(macos, driver_version));

    DevicePlan {
        queue_requests,
        layers,
        extensions,
        graphics_queue: QueueHandle { family_index: indices.graphics, queue_index: 0 },
    }
}

} // verus!
