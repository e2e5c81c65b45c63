use vstd::prelude::*;
use crate::suitability_error::{Rejection, SuitabilityError};

verus! {

/// The bit of a queue family's flags that marks support for graphics commands.
pub const QUEUE_GRAPHICS_BIT: u32 = 1;

/// What one queue family of a device reports: its capability flags, and whether it
/// can present to the target surface.
#[derive(Copy, Clone, Debug, PartialEq, Eq, Structural)]
pub struct QueueFamilyProbe {
    pub queue_flags: u32,
    pub surface_support: bool,
}

impl QueueFamilyProbe {
    pub open spec fn spec_supports_graphics(self) -> bool {
        self.queue_flags & QUEUE_GRAPHICS_BIT != 0
    }

    /// Whether the family accepts graphics commands.
    pub fn supports_graphics(&self) -> (r: bool)
        ensures
            r == self.spec_supports_graphics(),
    {
        self.queue_flags & QUEUE_GRAPHICS_BIT != 0
    }
}

/// The pair of queue-family indices used for drawing and for presenting.
#[derive(Copy, Clone, Debug, PartialEq, Eq, Structural)]
pub struct QueueFamilyIndices {
    pub graphics: u32,
    pub present: u32,
}

pub open spec fn has_graphics(s: Seq<QueueFamilyProbe>) -> bool {
    exists|i: int| 0 <= i < s.len() && s[i].spec_supports_graphics()
}

pub open spec fn has_present(s: Seq<QueueFamilyProbe>) -> bool {
    exists|i: int| 0 <= i < s.len() && s[i].surface_support
}

/// `i` is the lowest index of a graphics-capable family.
pub open spec fn is_first_graphics(s: Seq<QueueFamilyProbe>, i: int) -> bool {
    &&& 0 <= i < s.len()
    &&& s[i].spec_supports_graphics()
    &&& forall|j: int| 0 <= j < i ==> !s[j].spec_supports_graphics()
}

/// `i` is the lowest index of a family that can present to the surface.
pub open spec fn is_first_present(s: Seq<QueueFamilyProbe>, i: int) -> bool {
    &&& 0 <= i < s.len()
    &&& s[i].surface_support
    &&& forall|j: int| 0 <= j < i ==> !s[j].surface_support
}

/// Resolution succeeds exactly when both searches find a family.
pub open spec fn resolvable(s: Seq<QueueFamilyProbe>) -> bool {
    has_graphics(s) && has_present(s)
}

impl QueueFamilyIndices {
    /// Resolves the graphics and present indices, each the lowest index that qualifies,
    /// searched independently of the other.
    pub fn get(families: &Vec<QueueFamilyProbe>) -> (r: Result<Self, SuitabilityError>)
        requires
            families@.len() <= u32::MAX,
        ensures
            r is Ok <==> resolvable(families@),
            r matches Ok(ix) ==> is_first_graphics(families@, ix.graphics as int)
                && is_first_present(families@, ix.present as int),
            r matches Err(e) ==> e == SuitabilityError(Rejection::MissingQueueFamilies),
    {
        let present = Self::get_physical_device_surface_support_khr_index(families);
        let graphics = Self::get_graphics_queue_family_index(families);
        match (graphics, present) {
            (Some(graphics), Some(present)) => Ok(QueueFamilyIndices { graphics, present }),
            _ => Err(SuitabilityError(Rejection::MissingQueueFamilies)),
        }
    }

    /// The lowest index of a graphics-capable family, if there is one.
    pub fn get_graphics_queue_family_index(families: &Vec<QueueFamilyProbe>) -> (r: Option<u32>)
        requires
            families@.len() <= u32::MAX,
        ensures
            r is Some <==> has_graphics(families@),
            r matches Some(i) ==> is_first_graphics(families@, i as int),
    {
        let mut i: usize = 0;
        while i < families.len()
            invariant
                i <= families@.len() <= u32::MAX,
                forall|j: int| 0 <= j < i ==> !families@[j].spec_supports_graphics(),
            decreases families@.len() - i,
        {
            if families[i].supports_graphics() {
                return Some(i as u32);
            }
            i = i + 1;
        }
        None
    }

    /// The lowest index of a family that can present to the surface, if there is one.
    pub fn get_physical_device_surface_support_khr_index(families: &Vec<QueueFamilyProbe>) -> (r:
        Option<u32>)
        requires
            families@.len() <= u32::MAX,
        ensures
            r is Some <==> has_present(families@),
            r matches Some(i) ==> is_first_present(families@, i as int),
    {
        let mut i: usize = 0;
        while i < families.len()
            invariant
                i <= families@.len() <= u32::MAX,
                forall|j: int| 0 <= j < i ==> !families@[j].surface_support,
            decreases families@.len() - i,
        {
            if families[i].surface_support {
                return Some(i as u32);
            }
            i = i + 1;
        }
        None
    }
}

/// The queue-creation requests for a resolved pair: one entry per distinct index.
pub fn unique_queue_families(indices: QueueFamilyIndices) -> (r: Vec<u32>)
    ensures
        r@.no_duplicates(),
        r@.to_set() == set![indices.graphics, indices.present],
        indices.graphics == indices.present ==> r@ == seq![indices.graphics],
{
    if indices.present == indices.graphics {
        let r = vec![indices.graphics];
        proof {
            assert(r@[0] == indices.graphics);
            assert(r@.to_set() =~= set![indices.graphics, indices.present]);
            assert(r@ =~= seq![indices.graphics]);
        }
        r
    } else {
        let r = vec![indices.graphics, indices.present];
        proof {
            assert(r@[0] == indices.graphics);
            assert(r@[1] == indices.present);
            assert(r@.to_set() =~= set![indices.graphics, indices.present]);
        }
        r
    }
}

/// A device that reports no queue families cannot be resolved.
pub proof fn lemma_no_families_unresolvable(families: Seq<QueueFamilyProbe>)
    requires
        families.len() == 0,
    ensures
        !resolvable(families),
{
}

/// When the graphics and present indices coincide, the creation requests hold that
/// index exactly once.
pub proof fn lemma_shared_family_requested_once(indices: QueueFamilyIndices, requests: Seq<u32>)
    requires
        indices.graphics == indices.present,
        requests.no_duplicates(),
        requests.to_set() == set![indices.graphics, indices.present],
    ensures
        requests == seq![indices.graphics],
{
    assert(requests.contains(indices.graphics)) by {
        assert(requests.to_set().contains(indices.graphics));
    }
    let k = choose|k: int| 0 <= k < requests.len() && requests[k] == indices.graphics;
    if requests.len() > 1 {
        let other = if k == 0 { 1int } else { 0int };
        assert(requests.to_set().contains(requests[other]));
        assert(requests[other] == indices.graphics);
    }
    assert(requests =~= seq![indices.graphics]);
}

} // verus!
