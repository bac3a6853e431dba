use vstd::prelude::*;

verus! {

/// A driver/API version triple, ordered lexicographically by
/// (major, minor, patch).
#[derive(Clone, Copy, Debug, PartialEq, Eq, Structural)]
pub struct Version {
    pub major: u32,
    pub minor: u32,
    pub patch: u32,
}

/// Lexicographic order on version triples: `a` is at least `b`.
pub open spec fn version_at_least(a: Version, b: Version) -> bool {
    ||| a.major > b.major
    ||| (a.major == b.major && a.minor > b.minor)
    ||| (a.major == b.major && a.minor == b.minor && a.patch >= b.patch)
}

/// The minimum driver version from which the portability shims are
/// required on a macOS-like platform.
pub open spec fn spec_portability_min_version() -> Version {
    Version { major: 1, minor: 3, patch: 216 }
}

/// Executable counterpart of [`spec_portability_min_version`].
pub fn portability_min_version() -> (v: Version)
    ensures
        v == spec_portability_min_version(),
{
    Version { major: 1, minor: 3, patch: 216 }
}

impl Version {
    /// True exactly when `self` is at least `other` in lexicographic order.
    pub fn at_least(&self, other: &Version) -> (r: bool)
        ensures
            r == version_at_least(*self, *other),
    {
        if self.major != other.major {
            self.major > other.major
        } else if self.minor != other.minor {
            self.minor > other.minor
        } else {
            self.patch >= other.patch
        }
    }
}

} // verus!
