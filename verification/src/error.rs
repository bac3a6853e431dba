use vstd::prelude::*;

verus! {

/// The ways the bootstrap sequence can fail. Per-candidate rejections
/// during device selection are reported as [`SuitabilityError`] and
/// never surface here unless every candidate fails.
#[derive(Clone, Copy, Debug, PartialEq, Eq, Structural)]
pub enum BootstrapError {
    /// Diagnostics were requested but the validation layer is absent
    /// from the driver's layer list.
    ConfigurationError,
    /// No enumerated physical device satisfies the suitability
    /// predicate (or the enumeration is empty).
    NoSuitableDevice,
    /// No queue family of the device offers the required capability.
    MissingQueueFamily,
    /// A driver-level creation call failed; carries the driver's raw
    /// result code.
    DriverCreationFailed(i32),
}

/// The reason a single physical-device candidate was rejected by the
/// suitability predicate.
#[derive(Clone, Copy, Debug)]
pub struct SuitabilityError(pub &'static str);

} // verus!
