use vulkan_bootstrap::error::BootstrapError;
use vulkan_bootstrap::queue::{QueueFamilyIndices, QueueFamilyProperties};

fn family(flags: u32) -> QueueFamilyProperties {
    QueueFamilyProperties { queue_flags: flags, queue_count: 1 }
}

#[test]
fn missing_queue_family_when_no_graphics_flags() {
    let families = vec![family(0x4), family(0x2), family(0x8)];
    let r = QueueFamilyIndices::get(&families);
    assert_eq!(r, Err(BootstrapError::MissingQueueFamily));
}

#[test]
fn missing_queue_family_on_empty_list() {
    let families: Vec<QueueFamilyProperties> = Vec::new();
    let r = QueueFamilyIndices::get(&families);
    assert_eq!(r, Err(BootstrapError::MissingQueueFamily));
}

#[test]
fn lowest_qualifying_index_wins() {
    let families = vec![family(0x2), family(0x3), family(0x1)];
    let r = QueueFamilyIndices::get(&families).unwrap();
    assert_eq!(r.graphics, 1);
}

#[test]
fn first_family_qualifies_when_graphics_capable() {
    let families = vec![family(0x1), family(0x3)];
    let r = QueueFamilyIndices::get(&families).unwrap();
    assert_eq!(r.graphics, 0);
}

#[test]
fn graphics_bit_recognised_among_other_capabilities() {
    let families = vec![family(0xE), family(0xF)];
    let r = QueueFamilyIndices::get(&families).unwrap();
    assert_eq!(r.graphics, 1);
}
