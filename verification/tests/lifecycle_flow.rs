use vulkan_bootstrap::device::{DeviceClass, PhysicalDeviceInfo};
use vulkan_bootstrap::error::BootstrapError;
use vulkan_bootstrap::lifecycle::{
    create, BootstrapConfig, DriverInfo, Phase, TeardownAction,
};
use vulkan_bootstrap::logical::{QueueHandle, QueueRequest};
use vulkan_bootstrap::queue::QueueFamilyProperties;
use vulkan_bootstrap::version::Version;

fn stub_driver() -> DriverInfo {
    DriverInfo {
        available_layers: vec!["VK_LAYER_KHRONOS_validation".to_string()],
        version: Version { major: 1, minor: 4, patch: 309 },
        devices: vec![PhysicalDeviceInfo {
            device_type: DeviceClass::DiscreteGpu,
            geometry_shader: true,
            queue_families: vec![
                QueueFamilyProperties { queue_flags: 0x4, queue_count: 1 },
                QueueFamilyProperties { queue_flags: 0x1, queue_count: 2 },
            ],
        }],
    }
}

fn window_extensions() -> Vec<String> {
    vec!["VK_KHR_surface".to_string()]
}

#[test]
fn end_to_end_create_with_stub_driver() {
    let driver = stub_driver();
    let config = BootstrapConfig { diagnostics: true, macos: false };
    let state = create(&driver, window_extensions(), &config).unwrap();

    assert_eq!(state.phase, Phase::DeviceReady);
    assert_eq!(state.physical_device, 0);
    assert_eq!(state.indices.graphics, 1);
    assert_eq!(state.graphics_queue.family_index, state.indices.graphics);
    assert_eq!(
        state.graphics_queue,
        QueueHandle { family_index: 1, queue_index: 0 }
    );
    assert!(state.diagnostics_registered);
    assert_eq!(
        state.device_plan.queue_requests,
        vec![QueueRequest { family_index: 1, queue_count: 1 }]
    );
    assert_eq!(state.instance_plan.layers, vec!["VK_LAYER_KHRONOS_validation".to_string()]);
}

#[test]
fn create_fails_fast_when_validation_layer_missing() {
    let mut driver = stub_driver();
    driver.available_layers = vec!["VK_LAYER_other".to_string()];
    let config = BootstrapConfig { diagnostics: true, macos: false };
    let r = create(&driver, window_extensions(), &config);
    assert!(matches!(r, Err(BootstrapError::ConfigurationError)));
}

#[test]
fn create_reports_no_suitable_device() {
    let mut driver = stub_driver();
    driver.devices[0].geometry_shader = false;
    let config = BootstrapConfig { diagnostics: false, macos: false };
    let r = create(&driver, window_extensions(), &config);
    assert!(matches!(r, Err(BootstrapError::NoSuitableDevice)));
}

#[test]
fn create_reports_no_suitable_device_on_empty_enumeration() {
    let mut driver = stub_driver();
    driver.devices.clear();
    let config = BootstrapConfig { diagnostics: false, macos: false };
    let r = create(&driver, window_extensions(), &config);
    assert!(matches!(r, Err(BootstrapError::NoSuitableDevice)));
}

#[test]
fn device_plan_carries_portability_subset_on_macos() {
    let driver = stub_driver();
    let config = BootstrapConfig { diagnostics: false, macos: true };
    let state = create(&driver, window_extensions(), &config).unwrap();
    assert_eq!(
        state.device_plan.extensions,
        vec!["VK_KHR_portability_subset".to_string()]
    );
    assert!(state.instance_plan.portability);
}

#[test]
fn device_plan_has_no_extensions_off_macos() {
    let driver = stub_driver();
    let config = BootstrapConfig { diagnostics: false, macos: false };
    let state = create(&driver, window_extensions(), &config).unwrap();
    assert!(state.device_plan.extensions.is_empty());
}

#[test]
fn render_succeeds_in_ready_state() {
    let driver = stub_driver();
    let config = BootstrapConfig { diagnostics: false, macos: false };
    let state = create(&driver, window_extensions(), &config).unwrap();
    assert!(state.render().is_ok());
}

#[test]
fn teardown_runs_device_then_diagnostics_then_connection() {
    let driver = stub_driver();
    let config = BootstrapConfig { diagnostics: true, macos: false };
    let mut state = create(&driver, window_extensions(), &config).unwrap();
    let actions = state.destroy();
    assert_eq!(
        actions,
        vec![
            TeardownAction::DestroyDevice,
            TeardownAction::DestroyDiagnostics,
            TeardownAction::DestroyConnection,
        ]
    );
    assert_eq!(state.phase, Phase::Destroyed);
}

#[test]
fn teardown_skips_diagnostics_when_never_registered() {
    let driver = stub_driver();
    let config = BootstrapConfig { diagnostics: false, macos: false };
    let mut state = create(&driver, window_extensions(), &config).unwrap();
    let actions = state.destroy();
    assert_eq!(
        actions,
        vec![TeardownAction::DestroyDevice, TeardownAction::DestroyConnection]
    );
    assert_eq!(state.phase, Phase::Destroyed);
}
