use vstd::prelude::*;
use crate::error::BootstrapError;

verus! {

/// Capability bit marking a queue family as graphics-capable.
pub const QUEUE_GRAPHICS: u32 = 0x1;

/// What the driver reports about one queue family: its capability
/// flags and how many queues it offers.
#[derive(Clone, Copy, Debug, PartialEq, Eq, Structural)]
pub struct QueueFamilyProperties {
    pub queue_flags: u32,
    pub queue_count: u32,
}

/// True when the family's capability flags include graphics.
pub open spec fn supports_graphics(p: QueueFamilyProperties) -> bool {
    p.queue_flags & QUEUE_GRAPHICS != 0
}

/// The resolved index of each required capability family. Every field
/// is populated, or resolution fails: partially-resolved indices are
/// never exposed.
#[derive(Clone, Copy, Debug, PartialEq, Eq, Structural)]
pub struct QueueFamilyIndices {
    pub graphics: u32,
}

/// True when `graphics` is the lowest index in `families` whose flags
/// include graphics.
pub open spec fn spec_graphics_index(families: Seq<QueueFamilyProperties>, graphics: int) -> bool {
    &&& 0 <= graphics < families.len()
    &&& supports_graphics(families[graphics])
    &&& forall|j: int| 0 <= j < graphics ==> !supports_graphics(#[trigger] families[j])
}

impl QueueFamilyIndices {
    /// Queue Family Resolver: returns the lowest index of a
    /// graphics-capable family, or `MissingQueueFamily` exactly when
    /// no family qualifies.
    pub fn get(families: &Vec<QueueFamilyProperties>) -> (r: Result<Self, BootstrapError>)
        requires
            families@.len() <= u32::MAX,
        ensures
            match r {
                Ok(ix) => spec_graphics_index(families@, ix.graphics as int),
                Err(e) => {
                    &&& e == BootstrapError::MissingQueueFamily
                    &&& forall|j: int|
                        0 <= j < families@.len() ==> !supports_graphics(#[trigger] families@[j])
                },
            },
    {
        let n = families.len();
        let mut i: usize = 0;
        while i < n
            invariant
                i <= n,
                n == families@.len(),
                n <= u32::MAX,
                forall|j: int| 0 <= j < i ==> !supports_graphics(#[trigger] families@[j]),
            decreases n - i,
        {
            if families[i].queue_flags & QUEUE_GRAPHICS != 0 {
                return Ok(QueueFamilyIndices { graphics: i as u32 });
            }
            i = i + 1;
        }
        Err(BootstrapError::MissingQueueFamily)
    }
}

} // verus!
