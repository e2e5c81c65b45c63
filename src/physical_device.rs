use vstd::prelude::*;
use crate::queue_family_indices::{resolvable, QueueFamilyIndices, QueueFamilyProbe};
use crate::suitability_error::{Rejection, SuitabilityError};
use crate::swapchain::SwapchainSupport;
use crate::validation::{contains_all, contains_all_names, Config};

verus! {

/// What the platform reports about one candidate device against the target surface.
#[derive(Clone, Debug)]
pub struct DeviceProbe {
    pub queue_families: Vec<QueueFamilyProbe>,
    pub extensions: Vec<Vec<u8>>,
    pub support: SwapchainSupport,
}

impl DeviceProbe {
    /// The probe holds no more queue families than the platform can count.
    pub open spec fn wf(self) -> bool {
        self.queue_families@.len() <= u32::MAX
    }
}

/// The acceptance contract: the first failing check, in the order queue families,
/// extensions, surface support; `None` when all pass.
pub open spec fn verdict(probe: DeviceProbe, required: Seq<Vec<u8>>) -> Option<Rejection> {
    if !resolvable(probe.queue_families@) {
        Some(Rejection::MissingQueueFamilies)
    } else if !contains_all_names(probe.extensions@, required) {
        Some(Rejection::MissingExtensions)
    } else if probe.support.formats@.len() == 0 || probe.support.present_modes@.len() == 0 {
        Some(Rejection::InsufficientSurfaceSupport)
    } else {
        None
    }
}

/// Whether the device offers every extension in `required`.
pub fn check_physical_device_extensions(probe: &DeviceProbe, required: &Vec<Vec<u8>>) -> (r: Result<
    (),
    SuitabilityError,
>)
    ensures
        r is Ok <==> contains_all_names(probe.extensions@, required@),
        r matches Err(e) ==> e == SuitabilityError(Rejection::MissingExtensions),
{
    if contains_all(&probe.extensions, required) {
        Ok(())
    } else {
        Err(SuitabilityError(Rejection::MissingExtensions))
    }
}

/// Applies the acceptance contract to one candidate.
pub fn check_physical_device(probe: &DeviceProbe, config: &Config) -> (r: Result<
    (),
    SuitabilityError,
>)
    requires
        probe.wf(),
    ensures
        match verdict(*probe, config.device_extensions@) {
            None => r is Ok,
            Some(reason) => r == Err::<(), SuitabilityError>(SuitabilityError(reason)),
        },
{
    QueueFamilyIndices::get(&probe.queue_families)?;
    check_physical_device_extensions(probe, &config.device_extensions)?;
    if !probe.support.is_adequate() {
        return Err(SuitabilityError(Rejection::InsufficientSurfaceSupport));
    }
    Ok(())
}

/// One candidate turned down during selection.
#[derive(Copy, Clone, Debug, PartialEq, Eq, Structural)]
pub struct RejectionEvent {
    pub device: usize,
    pub reason: SuitabilityError,
}

/// The outcome of device selection: the accepted candidate, if any, and one event
/// for each candidate turned down before it.
#[derive(Clone, Debug)]
pub struct DeviceSelection {
    pub selected: Option<usize>,
    pub rejections: Vec<RejectionEvent>,
}

pub open spec fn all_probes_wf(candidates: Seq<DeviceProbe>) -> bool {
    forall|i: int| 0 <= i < candidates.len() ==> #[trigger] candidates[i].wf()
}

/// `events` records, in order, the rejection of each of the first `n` candidates.
pub open spec fn records_rejections(
    events: Seq<RejectionEvent>,
    candidates: Seq<DeviceProbe>,
    required: Seq<Vec<u8>>,
    n: int,
) -> bool {
    &&& events.len() == n
    &&& forall|k: int|
        0 <= k < n ==> {
            &&& (#[trigger] events[k]).device == k
            &&& verdict(candidates[k], required) == Some(events[k].reason.0)
        }
}

/// Walks the candidates in order and accepts the first that passes the contract.
pub fn pick_physical_device(candidates: &Vec<DeviceProbe>, config: &Config) -> (r: DeviceSelection)
    requires
        all_probes_wf(candidates@),
    ensures
        match r.selected {
            Some(i) => {
                &&& i < candidates@.len()
                &&& verdict(candidates@[i as int], config.device_extensions@) is None
                &&& records_rejections(
                    r.rejections@,
                    candidates@,
                    config.device_extensions@,
                    i as int,
                )
            },
            None => records_rejections(
                r.rejections@,
                candidates@,
                config.device_extensions@,
                candidates@.len() as int,
            ),
        },
{
    let mut rejections: Vec<RejectionEvent> = Vec::new();
    let mut i: usize = 0;
    while i < candidates.len()
        invariant
            i <= candidates@.len(),
            all_probes_wf(candidates@),
            records_rejections(rejections@, candidates@, config.device_extensions@, i as int),
        decreases candidates@.len() - i,
    {
        assert(candidates@[i as int].wf());
        match check_physical_device(&candidates[i], config) {
            Ok(()) => {
                return DeviceSelection { selected: Some(i), rejections };
            },
            Err(reason) => {
                rejections.push(RejectionEvent { device: i, reason });
            },
        }
        i = i + 1;
    }
    DeviceSelection { selected: None, rejections }
}

/// First fit: the selected candidate is accepted, and every candidate before it is
/// rejected; with no selection, every candidate is rejected.
pub proof fn lemma_first_accepted_is_selected(
    candidates: Seq<DeviceProbe>,
    required: Seq<Vec<u8>>,
    selected: Option<usize>,
    events: Seq<RejectionEvent>,
)
    requires
        match selected {
            Some(i) => i < candidates.len() && verdict(candidates[i as int], required) is None
                && records_rejections(events, candidates, required, i as int),
            None => records_rejections(events, candidates, required, candidates.len() as int),
        },
    ensures
        match selected {
            Some(i) => forall|j: int| 0 <= j < i ==> verdict(candidates[j], required) is Some,
            None => forall|j: int|
                0 <= j < candidates.len() ==> verdict(candidates[j], required) is Some,
        },
{
    match selected {
        Some(i) => {
            assert forall|j: int| 0 <= j < i implies verdict(candidates[j], required) is Some by {
                assert(events[j].device == j);
            }
        },
        None => {
            assert forall|j: int| 0 <= j < candidates.len() implies verdict(
                candidates[j],
                required,
            ) is Some by {
                assert(events[j].device == j);
            }
        },
    }
}

/// A candidate whose surface offers no format or no present mode is never accepted.
pub proof fn lemma_empty_surface_support_rejected(probe: DeviceProbe, required: Seq<Vec<u8>>)
    requires
        probe.support.formats@.len() == 0 || probe.support.present_modes@.len() == 0,
    ensures
        verdict(probe, required) is Some,
{
}

} // verus!
