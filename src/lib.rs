use vstd::prelude::*;

pub mod queue_family_indices;
pub mod suitability_error;
pub mod context;
pub mod physical_device;
pub mod swapchain;
pub mod validation;

verus! {

} // verus!
