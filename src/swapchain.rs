use vstd::prelude::*;

verus! {

/// Raw value of the pixel format preferred for the presentation chain (8-bit BGRA, sRGB).
pub const PREFERRED_FORMAT: i32 = 50;

/// Raw value of the color space preferred for the presentation chain (sRGB, non-linear).
pub const PREFERRED_COLOR_SPACE: i32 = 0;

/// Raw value of the low-latency, non-tearing present mode.
pub const PRESENT_MODE_MAILBOX: i32 = 1;

/// Raw value of the present mode that every valid surface offers.
pub const PRESENT_MODE_FIFO: i32 = 2;

/// A (pixel format, color space) pair, as raw enumeration values.
#[derive(Copy, Clone, Debug, PartialEq, Eq, Structural)]
pub struct SurfaceFormat {
    pub format: i32,
    pub color_space: i32,
}

/// A two-dimensional size in pixels.
#[derive(Copy, Clone, Debug, PartialEq, Eq, Structural)]
pub struct Extent2D {
    pub width: u32,
    pub height: u32,
}

/// What a surface reports about the presentation chains it accepts.
/// A `max_image_count` of zero means there is no upper bound; a current
/// extent whose width is `u32::MAX` means the surface lets the caller decide.
#[derive(Copy, Clone, Debug, PartialEq, Eq, Structural)]
pub struct SurfaceCapabilities {
    pub min_image_count: u32,
    pub max_image_count: u32,
    pub current_extent: Extent2D,
    pub min_image_extent: Extent2D,
    pub max_image_extent: Extent2D,
}

/// Everything a device reports about one surface: capabilities, formats and present modes.
#[derive(Clone, Debug)]
pub struct SwapchainSupport {
    pub capabilities: SurfaceCapabilities,
    pub formats: Vec<SurfaceFormat>,
    pub present_modes: Vec<i32>,
}

/// The configuration chosen for a presentation chain.
#[derive(Copy, Clone, Debug, PartialEq, Eq, Structural)]
pub struct SurfaceConfiguration {
    pub format: SurfaceFormat,
    pub present_mode: i32,
    pub image_count: u32,
    pub extent: Extent2D,
}

pub open spec fn preferred_surface_format() -> SurfaceFormat {
    SurfaceFormat { format: PREFERRED_FORMAT, color_space: PREFERRED_COLOR_SPACE }
}

/// The preferred pair when it is offered, else the first pair offered.
pub open spec fn spec_surface_format(formats: Seq<SurfaceFormat>) -> SurfaceFormat {
    if formats.contains(preferred_surface_format()) {
        preferred_surface_format()
    } else {
        formats[0]
    }
}

/// Mailbox when it is offered, else the always-available FIFO mode.
pub open spec fn spec_present_mode(modes: Seq<i32>) -> i32 {
    if modes.contains(PRESENT_MODE_MAILBOX) {
        PRESENT_MODE_MAILBOX
    } else {
        PRESENT_MODE_FIFO
    }
}

/// One image more than the minimum, lowered to the maximum when that is nonzero
/// and smaller (and never past the largest `u32`).
pub open spec fn spec_image_count(caps: SurfaceCapabilities) -> u32 {
    if caps.max_image_count != 0 && caps.min_image_count as int + 1 > caps.max_image_count {
        caps.max_image_count
    } else if caps.min_image_count == u32::MAX {
        caps.min_image_count
    } else {
        (caps.min_image_count + 1) as u32
    }
}

/// `v` lowered to `hi`, then raised to `lo`.
pub open spec fn spec_clamp(v: u32, lo: u32, hi: u32) -> u32 {
    let m = if v > hi { hi } else { v };
    if m < lo { lo } else { m }
}

pub open spec fn spec_clamp_extent(e: Extent2D, lo: Extent2D, hi: Extent2D) -> Extent2D {
    Extent2D {
        width: spec_clamp(e.width, lo.width, hi.width),
        height: spec_clamp(e.height, lo.height, hi.height),
    }
}

/// The window's framebuffer size when the surface leaves the choice to the caller,
/// else the surface's own extent; either way clamped into the reported bounds.
pub open spec fn spec_extent(caps: SurfaceCapabilities, framebuffer: Extent2D) -> Extent2D {
    let e = if caps.current_extent.width == u32::MAX { framebuffer } else { caps.current_extent };
    spec_clamp_extent(e, caps.min_image_extent, caps.max_image_extent)
}

pub open spec fn spec_surface_configuration(
    caps: SurfaceCapabilities,
    formats: Seq<SurfaceFormat>,
    modes: Seq<i32>,
    framebuffer: Extent2D,
) -> SurfaceConfiguration {
    SurfaceConfiguration {
        format: spec_surface_format(formats),
        present_mode: spec_present_mode(modes),
        image_count: spec_image_count(caps),
        extent: spec_extent(caps, framebuffer),
    }
}

/// Chooses the pixel format and color space.
pub fn choose_surface_format(formats: &Vec<SurfaceFormat>) -> (r: SurfaceFormat)
    requires
        formats@.len() > 0,
    ensures
        r == spec_surface_format(formats@),
{
    let preferred = SurfaceFormat { format: PREFERRED_FORMAT, color_space: PREFERRED_COLOR_SPACE };
    let mut i: usize = 0;
    while i < formats.len()
        invariant
            i <= formats@.len(),
            preferred == preferred_surface_format(),
            forall|j: int| 0 <= j < i ==> formats@[j] != preferred,
        decreases formats@.len() - i,
    {
        if formats[i] == preferred {
            assert(formats@.contains(preferred)) by {
                assert(formats@[i as int] == preferred);
            }
            return preferred;
        }
        i = i + 1;
    }
    formats[0]
}

/// Chooses the present mode.
pub fn choose_present_mode(modes: &Vec<i32>) -> (r: i32)
    ensures
        r == spec_present_mode(modes@),
{
    let mut i: usize = 0;
    while i < modes.len()
        invariant
            i <= modes@.len(),
            forall|j: int| 0 <= j < i ==> modes@[j] != PRESENT_MODE_MAILBOX,
        decreases modes@.len() - i,
    {
        if modes[i] == PRESENT_MODE_MAILBOX {
            assert(modes@.contains(PRESENT_MODE_MAILBOX)) by {
                assert(modes@[i as int] == PRESENT_MODE_MAILBOX);
            }
            return PRESENT_MODE_MAILBOX;
        }
        i = i + 1;
    }
    PRESENT_MODE_FIFO
}

/// Chooses how many images the presentation chain holds.
pub fn choose_image_count(caps: &SurfaceCapabilities) -> (r: u32)
    ensures
        r == spec_image_count(*caps),
        caps.min_image_count < u32::MAX && (caps.max_image_count == 0
            || caps.min_image_count < caps.max_image_count) ==> r == caps.min_image_count + 1,
        caps.max_image_count != 0 ==> r <= caps.max_image_count,
{
    if caps.max_image_count != 0 && caps.min_image_count >= caps.max_image_count {
        caps.max_image_count
    } else if caps.min_image_count == u32::MAX {
        caps.min_image_count
    } else {
        caps.min_image_count + 1
    }
}

/// `v` lowered to `hi`, then raised to `lo`.
pub fn clamp_u32(v: u32, lo: u32, hi: u32) -> (r: u32)
    ensures
        r == spec_clamp(v, lo, hi),
        lo <= hi ==> lo <= r <= hi,
        lo <= v <= hi ==> r == v,
{
    let m = if v > hi { hi } else { v };
    if m < lo { lo } else { m }
}

/// Chooses the resolution of the presentation chain.
pub fn choose_extent(caps: &SurfaceCapabilities, framebuffer: Extent2D) -> (r: Extent2D)
    ensures
        r == spec_extent(*caps, framebuffer),
{
    let e = if caps.current_extent.width == u32::MAX { framebuffer } else { caps.current_extent };
    Extent2D {
        width: clamp_u32(e.width, caps.min_image_extent.width, caps.max_image_extent.width),
        height: clamp_u32(e.height, caps.min_image_extent.height, caps.max_image_extent.height),
    }
}

impl SwapchainSupport {
    /// Whether the surface offers at least one format and at least one present mode.
    pub fn is_adequate(&self) -> (r: bool)
        ensures
            r == (self.formats@.len() > 0 && self.present_modes@.len() > 0),
    {
        self.formats.len() > 0 && self.present_modes.len() > 0
    }

    /// Chooses format, color space, present mode, image count and extent.
    pub fn select_configuration(&self, framebuffer: Extent2D) -> (r: SurfaceConfiguration)
        requires
            self.formats@.len() > 0,
        ensures
            r == spec_surface_configuration(
                self.capabilities,
                self.formats@,
                self.present_modes@,
                framebuffer,
            ),
    {
        SurfaceConfiguration {
            format: choose_surface_format(&self.formats),
            present_mode: choose_present_mode(&self.present_modes),
            image_count: choose_image_count(&self.capabilities),
            extent: choose_extent(&self.capabilities, framebuffer),
        }
    }
}

/// Selecting a configuration is deterministic: two selections made from the same
/// surface support and the same framebuffer size are identical.
pub proof fn lemma_selection_deterministic(
    support: SwapchainSupport,
    framebuffer: Extent2D,
    first: SurfaceConfiguration,
    second: SurfaceConfiguration,
)
    requires
        first == spec_surface_configuration(
            support.capabilities,
            support.formats@,
            support.present_modes@,
            framebuffer,
        ),
        second == spec_surface_configuration(
            support.capabilities,
            support.formats@,
            support.present_modes@,
            framebuffer,
        ),
    ensures
        first == second,
{
}

/// The chosen extent lies within the reported bounds whenever those bounds are ordered.
pub proof fn lemma_extent_within_bounds(caps: SurfaceCapabilities, framebuffer: Extent2D)
    requires
        caps.min_image_extent.width <= caps.max_image_extent.width,
        caps.min_image_extent.height <= caps.max_image_extent.height,
    ensures
        caps.min_image_extent.width <= spec_extent(caps, framebuffer).width
            <= caps.max_image_extent.width,
        caps.min_image_extent.height <= spec_extent(caps, framebuffer).height
            <= caps.max_image_extent.height,
{
}

/// The chosen image count never exceeds a nonzero maximum.
pub proof fn lemma_image_count_within_bounds(caps: SurfaceCapabilities)
    requires
        caps.max_image_count != 0,
    ensures
        spec_image_count(caps) <= caps.max_image_count,
{
}

} // verus!
