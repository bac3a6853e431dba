use vstd::prelude::*;
use crate::device::{pick_physical_device, spec_suitable, PhysicalDeviceInfo};
use crate::error::BootstrapError;
use crate::instance::{
    plan_instance, spec_contains_name, spec_instance_plan_for, spec_validation_layer, InstancePlan,
};
use crate::logical::{plan_logical_device, spec_device_plan_for, DevicePlan, QueueHandle};
use crate::queue::{spec_graphics_index, QueueFamilyIndices};
use crate::version::Version;

verus! {

/// Where the bootstrap sequence stands. Transitions run strictly in
/// declaration order and `Destroyed` is terminal.
#[derive(Clone, Copy, Debug, PartialEq, Eq, Structural)]
pub enum Phase {
    Uninitialized,
    ConnectionReady,
    DeviceSelected,
    DeviceReady,
    Destroyed,
}

/// A plain-value snapshot of what the driver reports: the available
/// instance layers, its version, and the physical devices in
/// enumeration order.
#[derive(Clone, Debug)]
pub struct DriverInfo {
    pub available_layers: Vec<String>,
    pub version: Version,
    pub devices: Vec<PhysicalDeviceInfo>,
}

/// Startup configuration: whether diagnostics (validation layer,
/// callback and extension) are enabled, and whether the platform is
/// macOS-like and so needs the portability shims.
#[derive(Clone, Copy, Debug, PartialEq, Eq, Structural)]
pub struct BootstrapConfig {
    pub diagnostics: bool,
    pub macos: bool,
}

/// One step of the ordered teardown that the application must perform
/// against the driver.
#[derive(Clone, Copy, Debug, PartialEq, Eq, Structural)]
pub enum TeardownAction {
    DestroyDevice,
    DestroyDiagnostics,
    DestroyConnection,
}

/// Everything the bootstrap produced, owned by the single running
/// application: the connection plan, the diagnostic registration (if
/// any), the selected device, the resolved queue families, the device
/// plan and the queue to use.
#[derive(Clone, Debug)]
pub struct ApplicationState {
    pub phase: Phase,
    pub instance_plan: InstancePlan,
    pub diagnostics_registered: bool,
    pub physical_device: usize,
    pub indices: QueueFamilyIndices,
    pub device_plan: DevicePlan,
    pub graphics_queue: QueueHandle,
}

/// True when `st` is exactly the ready state owed for this driver
/// snapshot, window extension list and configuration: the plans match
/// their builders, the stored device is the first suitable one, the
/// stored index is the lowest graphics-capable family of that device,
/// and the stored queue is slot 0 of that family.
pub open spec fn spec_state_valid(
    st: ApplicationState,
    driver: DriverInfo,
    window: Seq<Seq<char>>,
    config: BootstrapConfig,
) -> bool {
    &&& st.phase == Phase::DeviceReady
    &&& spec_instance_plan_for(
        st.instance_plan,
        window,
        config.macos,
        driver.version,
        config.diagnostics,
    )
    &&& st.diagnostics_registered == config.diagnostics
    &&& st.physical_device < driver.devices@.len()
    &&& spec_suitable(driver.devices@[st.physical_device as int])
    &&& forall|j: int|
        0 <= j < st.physical_device ==> !spec_suitable(#[trigger] driver.devices@[j])
    &&& spec_graphics_index(
        driver.devices@[st.physical_device as int].queue_families@,
        st.indices.graphics as int,
    )
    &&& spec_device_plan_for(
        st.device_plan,
        st.indices,
        config.diagnostics,
        config.macos,
        driver.version,
    )
    &&& st.graphics_queue == (QueueHandle {
        family_index: st.indices.graphics,
        queue_index: 0,
    })
}

/// True when the Instance Builder must reject these inputs.
pub open spec fn spec_layers_rejected(driver: DriverInfo, config: BootstrapConfig) -> bool {
    config.diagnostics && !spec_contains_name(driver.available_layers@, spec_validation_layer())
}

/// True when some enumerated device passes the suitability predicate.
pub open spec fn spec_some_device_suitable(driver: DriverInfo) -> bool {
    exists|j: int| 0 <= j < driver.devices@.len() && spec_suitable(#[trigger] driver.devices@[j])
}

/// Application Lifecycle: runs the bootstrap sequence in order —
/// instance planning, device selection, queue-family resolution,
/// logical-device planning — and aborts at the first failing step.
pub fn create(
    driver: &DriverInfo,
    window_extensions: Vec<String>,
    config: &BootstrapConfig,
) -> (r: Result<ApplicationState, BootstrapError>)
    requires
        forall|i: int|
            0 <= i < driver.devices@.len() ==> (#[trigger] driver.devices@[i]).queue_families@.len()
                <= u32::MAX,
    ensures
        r is Ok <==> !spec_layers_rejected(*driver, *config) && spec_some_device_suitable(*driver),
        (r matches Err(e) && e == BootstrapError::ConfigurationError) <==> spec_layers_rejected(
            *driver,
            *config,
        ),
        (r matches Err(e) && e == BootstrapError::NoSuitableDevice) <==> (!spec_layers_rejected(
            *driver,
            *config,
        ) && !spec_some_device_suitable(*driver)),
        r matches Ok(st) ==> spec_state_valid(
            st,
            *driver,
            window_extensions.deep_view(),
            *config,
        ),
{
    let instance_plan = match plan_instance(
        window_extensions,
        &driver.available_layers,
        config.diagnostics,
        config.macos,
        driver.version,
    ) {
        Ok(p) => p,
        Err(e) => {
            return Err(e);
        },
    };

    let physical_device = match pick_physical_device(&driver.devices) {
        Ok(i) => i,
        Err(e) => {
            return Err(e);
        },
    };

    let indices = match QueueFamilyIndices::get(&driver.devices[physical_device].queue_families) {
        Ok(ix) => ix,
        Err(_) => {
            // unreachable: a suitable device has a graphics-capable family
            assert(false);
            return Err(BootstrapError::MissingQueueFamily);
        },
    };

    let device_plan = plan_logical_device(&indices, config.diagnostics, config.macos, driver.version);
    let graphics_queue = device_plan.graphics_queue;

    Ok(
        ApplicationState {
            phase: Phase::DeviceReady,
            instance_plan,
            diagnostics_registered: config.diagnostics,
            physical_device,
            indices,
            device_plan,
            graphics_queue,
        },
    )
}

/// The exact teardown sequence owed for a state: the logical device
/// first, then the diagnostic registration (only if one exists), the
/// connection last.
pub open spec fn spec_teardown_actions(diagnostics_registered: bool) -> Seq<TeardownAction> {
    if diagnostics_registered {
        seq![
            TeardownAction::DestroyDevice,
            TeardownAction::DestroyDiagnostics,
            TeardownAction::DestroyConnection,
        ]
    } else {
        seq![TeardownAction::DestroyDevice, TeardownAction::DestroyConnection]
    }
}

/// Position of an action in the required teardown order.
pub open spec fn spec_teardown_rank(a: TeardownAction) -> int {
    match a {
        TeardownAction::DestroyDevice => 0,
        TeardownAction::DestroyDiagnostics => 1,
        TeardownAction::DestroyConnection => 2,
    }
}

/// Teardown order law: on every path, the teardown sequence destroys
/// the logical device strictly before the diagnostic registration
/// (when one exists) and strictly before the connection, destroys the
/// connection last, and destroys each resource exactly once.
pub proof fn lemma_teardown_order(diagnostics_registered: bool)
    ensures
        spec_teardown_actions(diagnostics_registered).first() == TeardownAction::DestroyDevice,
        spec_teardown_actions(diagnostics_registered).last() == TeardownAction::DestroyConnection,
        forall|i: int, j: int|
            0 <= i < j < spec_teardown_actions(diagnostics_registered).len()
                ==> spec_teardown_rank(#[trigger] spec_teardown_actions(diagnostics_registered)[i])
                < spec_teardown_rank(#[trigger] spec_teardown_actions(diagnostics_registered)[j]),
{
}

impl ApplicationState {
    /// Frame rendering: a placeholder reachable only from the ready
    /// state; performs no work, always succeeds and does not
    /// transition state.
    pub fn render(&self) -> (r: Result<(), BootstrapError>)
        requires
            self.phase == Phase::DeviceReady,
        ensures
            r is Ok,
    {
        Ok(())
    }

    /// Shutdown: moves the state to `Destroyed` and returns the
    /// driver teardown steps the application must now perform, in the
    /// exact required order.
    pub fn destroy(&mut self) -> (actions: Vec<TeardownAction>)
        requires
            old(self).phase == Phase::DeviceReady,
        ensures
            *final(self) == (ApplicationState { phase: Phase::Destroyed, ..*old(self) }),
            actions@ == spec_teardown_actions(old(self).diagnostics_registered),
    {
        self.phase = Phase::Destroyed;
        let mut actions: Vec<TeardownAction> = Vec::new();
        actions.push(TeardownAction::DestroyDevice);
        if self.diagnostics_registered {
            actions.push(TeardownAction::DestroyDiagnostics);
        }
        actions.push(TeardownAction::DestroyConnection);
        assert(actions@ =~= spec_teardown_actions(self.diagnostics_registered));
        actions
    }
}

} // verus!
