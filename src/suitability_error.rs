use vstd::prelude::*;

verus! {

/// Why a candidate device was turned down.
#[derive(Copy, Clone, Debug, PartialEq, Eq, Structural)]
pub enum Rejection {
    /// No graphics-capable or no presentation-capable queue family.
    MissingQueueFamilies,
    /// At least one required device extension is absent.
    MissingExtensions,
    /// The surface offers no format or no present mode.
    InsufficientSurfaceSupport,
}

/// A candidate device failed the acceptance contract.
#[derive(Copy, Clone, Debug, PartialEq, Eq, Structural)]
pub struct SuitabilityError(pub Rejection);

/// The text that describes each reason.
pub open spec fn spec_message(reason: Rejection) -> Seq<char> {
    match reason {
        Rejection::MissingQueueFamilies => "Missing queue families."@,
        Rejection::MissingExtensions => "Missing extensions."@,
        Rejection::InsufficientSurfaceSupport => "Insufficient swapchain support."@,
    }
}

impl SuitabilityError {
    /// A one-line description of the reason.
    pub fn message(&self) -> (r: &'static str)
        ensures
            r@ == spec_message(self.0),
    {
        match self.0 {
            Rejection::MissingQueueFamilies => "Missing queue families.",
            Rejection::MissingExtensions => "Missing extensions.",
            Rejection::InsufficientSurfaceSupport => "Insufficient swapchain support.",
        }
    }
}

} // verus!
