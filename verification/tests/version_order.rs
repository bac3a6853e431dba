use vulkan_bootstrap::version::{portability_min_version, Version};

fn version(major: u32, minor: u32, patch: u32) -> Version {
    Version { major, minor, patch }
}

#[test]
fn equal_versions_compare_as_at_least() {
    assert!(version(1, 3, 216).at_least(&version(1, 3, 216)));
}

#[test]
fn patch_below_threshold_is_not_at_least() {
    assert!(!version(1, 3, 215).at_least(&version(1, 3, 216)));
}

#[test]
fn higher_minor_dominates_lower_patch() {
    assert!(version(1, 4, 0).at_least(&version(1, 3, 216)));
}

#[test]
fn higher_major_dominates_everything() {
    assert!(version(2, 0, 0).at_least(&version(1, 3, 216)));
    assert!(!version(0, 9, 999).at_least(&version(1, 0, 0)));
}

#[test]
fn portability_threshold_matches_configuration() {
    assert_eq!(portability_min_version(), version(1, 3, 216));
}
