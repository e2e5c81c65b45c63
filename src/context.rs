use vstd::prelude::*;
use crate::physical_device::{
    all_probes_wf, pick_physical_device, records_rejections, verdict, DeviceProbe, RejectionEvent,
};
use crate::queue_family_indices::{
    is_first_graphics, is_first_present, unique_queue_families, QueueFamilyIndices,
};
use crate::swapchain::{spec_surface_configuration, Extent2D, SurfaceConfiguration};
use crate::validation::Config;

verus! {

/// Every decision needed to build a rendering context on an accepted device.
#[derive(Clone, Debug)]
pub struct ContextPlan {
    /// Position of the accepted candidate in enumeration order.
    pub device: usize,
    pub indices: QueueFamilyIndices,
    /// One queue-creation request per distinct family index.
    pub queue_families: Vec<u32>,
    pub surface: SurfaceConfiguration,
}

/// Why no context could be planned.
#[derive(Copy, Clone, Debug, PartialEq, Eq, Structural)]
pub enum ContextError {
    /// Every candidate was rejected.
    NoSuitableDevice,
}

/// The plan or the failure, together with the rejections met on the way.
#[derive(Debug)]
pub struct Assembly {
    pub rejections: Vec<RejectionEvent>,
    pub result: Result<ContextPlan, ContextError>,
}

/// Some candidate passes the acceptance contract.
pub open spec fn some_accepted(candidates: Seq<DeviceProbe>, required: Seq<Vec<u8>>) -> bool {
    exists|i: int| 0 <= i < candidates.len() && verdict(candidates[i], required) is None
}

/// What a plan for `candidates` must be: built on the first accepted candidate,
/// with its first graphics and first present family, one request per distinct
/// family, and the surface configuration selected from its support.
pub open spec fn is_plan_for(
    plan: ContextPlan,
    candidates: Seq<DeviceProbe>,
    required: Seq<Vec<u8>>,
    framebuffer: Extent2D,
) -> bool {
    let d = candidates[plan.device as int];
    &&& plan.device < candidates.len()
    &&& verdict(d, required) is None
    &&& forall|j: int| 0 <= j < plan.device ==> verdict(candidates[j], required) is Some
    &&& is_first_graphics(d.queue_families@, plan.indices.graphics as int)
    &&& is_first_present(d.queue_families@, plan.indices.present as int)
    &&& plan.queue_families@.no_duplicates()
    &&& plan.queue_families@.to_set() == set![plan.indices.graphics, plan.indices.present]
    &&& plan.surface == spec_surface_configuration(
        d.support.capabilities,
        d.support.formats@,
        d.support.present_modes@,
        framebuffer,
    )
}

/// Selects a device, resolves its queues and chooses the surface configuration.
/// Fails with `NoSuitableDevice` exactly when every candidate is rejected.
pub fn assemble(candidates: &Vec<DeviceProbe>, config: &Config, framebuffer: Extent2D) -> (r:
    Assembly)
    requires
        all_probes_wf(candidates@),
    ensures
        r.result is Err <==> !some_accepted(candidates@, config.device_extensions@),
        r.result matches Err(e) ==> e == ContextError::NoSuitableDevice,
        r.result matches Ok(plan) ==> is_plan_for(
            plan,
            candidates@,
            config.device_extensions@,
            framebuffer,
        ),
        match r.result {
            Ok(plan) => records_rejections(
                r.rejections@,
                candidates@,
                config.device_extensions@,
                plan.device as int,
            ),
            Err(_) => records_rejections(
                r.rejections@,
                candidates@,
                config.device_extensions@,
                candidates@.len() as int,
            ),
        },
{
    let selection = pick_physical_device(candidates, config);
    let ghost required = config.device_extensions@;
    match selection.selected {
        None => {
            proof {
                assert forall|j: int| 0 <= j < candidates@.len() implies verdict(
                    candidates@[j],
                    required,
                ) is Some by {
                    assert(selection.rejections@[j].device == j);
                }
            }
            Assembly { rejections: selection.rejections, result: Err(ContextError::NoSuitableDevice) }
        },
        Some(i) => {
            let device = &candidates[i];
            proof {
                assert(candidates@[i as int].wf());
                assert forall|j: int| 0 <= j < i implies verdict(candidates@[j], required) is Some by {
                    assert(selection.rejections@[j].device == j);
                }
            }
            match QueueFamilyIndices::get(&device.queue_families) {
                Ok(indices) => {
                    let queue_families = unique_queue_families(indices);
                    let surface = device.support.select_configuration(framebuffer);
                    let plan = ContextPlan { device: i, indices, queue_families, surface };
                    Assembly { rejections: selection.rejections, result: Ok(plan) }
                },
                Err(_) => {
                    Assembly {
                        rejections: selection.rejections,
                        result: Err(ContextError::NoSuitableDevice),
                    }
                },
            }
        },
    }
}

} // verus!
