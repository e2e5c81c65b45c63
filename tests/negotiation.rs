use vkbootstrap::context::{assemble, ContextError};
use vkbootstrap::physical_device::{
    check_physical_device, check_physical_device_extensions, pick_physical_device, DeviceProbe,
};
use vkbootstrap::queue_family_indices::{
    unique_queue_families, QueueFamilyIndices, QueueFamilyProbe,
};
use vkbootstrap::suitability_error::{Rejection, SuitabilityError};
use vkbootstrap::swapchain::{
    choose_extent, choose_image_count, choose_present_mode, choose_surface_format, clamp_u32,
    Extent2D, SurfaceCapabilities, SurfaceFormat, SwapchainSupport, PRESENT_MODE_FIFO,
    PRESENT_MODE_MAILBOX,
};
use vkbootstrap::validation::{
    contains, contains_all, message_level, names_equal, Config, MessageLevel,
    ValidationLayerUnavailable,
};

const SWAPCHAIN: &[u8] = b"VK_KHR_swapchain";
const LAYER: &[u8] = b"VK_LAYER_KHRONOS_validation";

fn config(validation_enabled: bool) -> Config {
    Config {
        validation_enabled,
        validation_layer: LAYER.to_vec(),
        device_extensions: vec![SWAPCHAIN.to_vec()],
    }
}

fn extent(width: u32, height: u32) -> Extent2D {
    Extent2D { width, height }
}

fn caps(min: u32, max: u32) -> SurfaceCapabilities {
    SurfaceCapabilities {
        min_image_count: min,
        max_image_count: max,
        current_extent: extent(u32::MAX, u32::MAX),
        min_image_extent: extent(1, 1),
        max_image_extent: extent(4096, 4096),
    }
}

fn family(graphics: bool, present: bool) -> QueueFamilyProbe {
    QueueFamilyProbe { queue_flags: if graphics { 1 } else { 4 }, surface_support: present }
}

fn srgb() -> SurfaceFormat {
    SurfaceFormat { format: 50, color_space: 0 }
}

fn good_device() -> DeviceProbe {
    DeviceProbe {
        queue_families: vec![family(true, true)],
        extensions: vec![SWAPCHAIN.to_vec()],
        support: SwapchainSupport {
            capabilities: caps(2, 8),
            formats: vec![srgb()],
            present_modes: vec![PRESENT_MODE_FIFO],
        },
    }
}

#[test]
fn end_to_end_single_device_succeeds() {
    let a = assemble(&vec![good_device()], &config(true), extent(800, 600));
    assert!(a.rejections.is_empty());
    let plan = a.result.expect("a plan");
    assert_eq!(plan.device, 0);
    assert_eq!(plan.indices.graphics, plan.indices.present);
    assert_eq!(plan.queue_families, vec![0]);
    assert_eq!(plan.surface.format, srgb());
    assert_eq!(plan.surface.present_mode, PRESENT_MODE_FIFO);
    assert_eq!(plan.surface.image_count, 3);
    assert_eq!(plan.surface.extent, extent(800, 600));
}

#[test]
fn end_to_end_missing_extension_fails() {
    let mut d = good_device();
    d.extensions = vec![b"VK_KHR_other".to_vec()];
    let a = assemble(&vec![d], &config(false), extent(800, 600));
    assert_eq!(a.result.unwrap_err(), ContextError::NoSuitableDevice);
    assert_eq!(a.rejections.len(), 1);
    assert_eq!(a.rejections[0].device, 0);
    assert_eq!(a.rejections[0].reason, SuitabilityError(Rejection::MissingExtensions));
}

#[test]
fn empty_candidate_list_fails() {
    let a = assemble(&vec![], &config(false), extent(800, 600));
    assert_eq!(a.result.unwrap_err(), ContextError::NoSuitableDevice);
    assert!(a.rejections.is_empty());
}

#[test]
fn selector_takes_first_accepted() {
    let mut bad = good_device();
    bad.queue_families = vec![];
    let mut second = good_device();
    second.support.present_modes = vec![PRESENT_MODE_MAILBOX];
    let third = good_device();
    let s = pick_physical_device(&vec![bad, second, third], &config(false));
    assert_eq!(s.selected, Some(1));
    assert_eq!(s.rejections.len(), 1);
    assert_eq!(s.rejections[0].device, 0);
    assert_eq!(s.rejections[0].reason.0, Rejection::MissingQueueFamilies);
}

#[test]
fn selector_exhaustion_records_every_rejection() {
    let mut a = good_device();
    a.support.formats = vec![];
    let mut b = good_device();
    b.extensions = vec![];
    let s = pick_physical_device(&vec![a, b], &config(false));
    assert_eq!(s.selected, None);
    assert_eq!(s.rejections.len(), 2);
    assert_eq!(s.rejections[0].reason.0, Rejection::InsufficientSurfaceSupport);
    assert_eq!(s.rejections[1].reason.0, Rejection::MissingExtensions);
}

#[test]
fn zero_queue_families_fail_resolution() {
    let r = QueueFamilyIndices::get(&vec![]);
    assert_eq!(r.unwrap_err(), SuitabilityError(Rejection::MissingQueueFamilies));
}

#[test]
fn no_present_family_fails_resolution() {
    let r = QueueFamilyIndices::get(&vec![family(true, false), family(false, false)]);
    assert_eq!(r.unwrap_err().0, Rejection::MissingQueueFamilies);
}

#[test]
fn searches_are_independent() {
    let fams = vec![family(false, true), family(true, false), family(true, true)];
    let r = QueueFamilyIndices::get(&fams).unwrap();
    assert_eq!(r, QueueFamilyIndices { graphics: 1, present: 0 });
    assert_eq!(QueueFamilyIndices::get_graphics_queue_family_index(&fams), Some(1));
    assert_eq!(QueueFamilyIndices::get_physical_device_surface_support_khr_index(&fams), Some(0));
}

#[test]
fn shared_family_requested_once() {
    let r = unique_queue_families(QueueFamilyIndices { graphics: 3, present: 3 });
    assert_eq!(r, vec![3]);
}

#[test]
fn distinct_families_requested_each() {
    let r = unique_queue_families(QueueFamilyIndices { graphics: 1, present: 0 });
    assert_eq!(r, vec![1, 0]);
}

#[test]
fn filter_order_queue_families_first() {
    let mut d = good_device();
    d.queue_families = vec![family(false, false)];
    d.extensions = vec![];
    d.support.formats = vec![];
    assert_eq!(
        check_physical_device(&d, &config(false)),
        Err(SuitabilityError(Rejection::MissingQueueFamilies))
    );
}

#[test]
fn filter_order_extensions_before_surface() {
    let mut d = good_device();
    d.extensions = vec![];
    d.support.present_modes = vec![];
    assert_eq!(
        check_physical_device(&d, &config(false)),
        Err(SuitabilityError(Rejection::MissingExtensions))
    );
}

#[test]
fn filter_rejects_empty_present_modes() {
    let mut d = good_device();
    d.support.present_modes = vec![];
    assert_eq!(
        check_physical_device(&d, &config(false)),
        Err(SuitabilityError(Rejection::InsufficientSurfaceSupport))
    );
}

#[test]
fn filter_accepts_good_device() {
    assert_eq!(check_physical_device(&good_device(), &config(true)), Ok(()));
}

#[test]
fn extension_check_needs_all() {
    let mut d = good_device();
    d.extensions = vec![b"A".to_vec(), SWAPCHAIN.to_vec()];
    let required = vec![SWAPCHAIN.to_vec(), b"B".to_vec()];
    assert_eq!(
        check_physical_device_extensions(&d, &required),
        Err(SuitabilityError(Rejection::MissingExtensions))
    );
    assert_eq!(check_physical_device_extensions(&d, &vec![b"A".to_vec()]), Ok(()));
}

#[test]
fn name_comparisons() {
    assert!(names_equal(&b"abc".to_vec(), &b"abc".to_vec()));
    assert!(!names_equal(&b"abc".to_vec(), &b"abd".to_vec()));
    assert!(!names_equal(&b"ab".to_vec(), &b"abc".to_vec()));
    let names = vec![b"x".to_vec(), b"yz".to_vec()];
    assert!(contains(&names, &b"yz".to_vec()));
    assert!(!contains(&names, &b"y".to_vec()));
    assert!(contains_all(&names, &vec![]));
    assert!(!contains_all(&names, &vec![b"x".to_vec(), b"q".to_vec()]));
}

#[test]
fn extent_clamped_into_bounds() {
    assert_eq!(choose_extent(&caps(2, 0), extent(8000, 600)), extent(4096, 600));
}

#[test]
fn extent_fixed_by_surface() {
    let mut c = caps(2, 0);
    c.current_extent = extent(1024, 768);
    assert_eq!(choose_extent(&c, extent(8000, 600)), extent(1024, 768));
}

#[test]
fn extent_raised_to_minimum() {
    let mut c = caps(2, 0);
    c.min_image_extent = extent(100, 100);
    assert_eq!(choose_extent(&c, extent(0, 50)), extent(100, 100));
}

#[test]
fn image_count_clamped_to_maximum() {
    assert_eq!(choose_image_count(&caps(2, 2)), 2);
}

#[test]
fn image_count_unbounded() {
    assert_eq!(choose_image_count(&caps(2, 0)), 3);
    assert_eq!(choose_image_count(&caps(u32::MAX, 0)), u32::MAX);
}

#[test]
fn clamp_values() {
    assert_eq!(clamp_u32(5, 1, 10), 5);
    assert_eq!(clamp_u32(0, 1, 10), 1);
    assert_eq!(clamp_u32(11, 1, 10), 10);
}

#[test]
fn surface_format_prefers_srgb() {
    let other = SurfaceFormat { format: 44, color_space: 0 };
    assert_eq!(choose_surface_format(&vec![other, srgb()]), srgb());
    let mixed = SurfaceFormat { format: 50, color_space: 1 };
    assert_eq!(choose_surface_format(&vec![mixed, other]), mixed);
}

#[test]
fn present_mode_prefers_mailbox() {
    assert_eq!(choose_present_mode(&vec![PRESENT_MODE_FIFO, PRESENT_MODE_MAILBOX]), PRESENT_MODE_MAILBOX);
    assert_eq!(choose_present_mode(&vec![0, 3]), PRESENT_MODE_FIFO);
}

#[test]
fn selection_is_deterministic() {
    let d = good_device();
    let a = d.support.select_configuration(extent(8000, 600));
    let b = d.support.select_configuration(extent(8000, 600));
    assert_eq!(a, b);
    assert_eq!(a.extent, extent(4096, 600));
}

#[test]
fn surface_adequacy() {
    let mut d = good_device();
    assert!(d.support.is_adequate());
    d.support.formats.clear();
    assert!(!d.support.is_adequate());
}

#[test]
fn validation_layer_check() {
    let available = vec![LAYER.to_vec()];
    assert_eq!(config(true).check_layers(&available), Ok(()));
    assert_eq!(config(true).check_layers(&vec![]), Err(ValidationLayerUnavailable));
    assert_eq!(config(false).check_layers(&vec![]), Ok(()));
}

#[test]
fn message_levels() {
    assert_eq!(message_level(0x1000), MessageLevel::Error);
    assert_eq!(message_level(0x100), MessageLevel::Warning);
    assert_eq!(message_level(0x10), MessageLevel::Debug);
    assert_eq!(message_level(0x1), MessageLevel::Trace);
}

#[test]
fn rejection_messages() {
    assert_eq!(SuitabilityError(Rejection::MissingQueueFamilies).message(), "Missing queue families.");
    assert_eq!(SuitabilityError(Rejection::MissingExtensions).message(), "Missing extensions.");
}

#[test]
fn end_to_end_second_device_with_split_families() {
    let mut first = good_device();
    first.support.formats = vec![];
    let mut second = good_device();
    second.queue_families = vec![family(false, true), family(true, false)];
    second.support.present_modes = vec![PRESENT_MODE_FIFO, PRESENT_MODE_MAILBOX];
    second.support.capabilities.current_extent = extent(640, 480);
    let a = assemble(&vec![first, second], &config(false), extent(800, 600));
    assert_eq!(a.rejections.len(), 1);
    assert_eq!(a.rejections[0].reason.0, Rejection::InsufficientSurfaceSupport);
    let plan = a.result.expect("a plan");
    assert_eq!(plan.device, 1);
    assert_eq!(plan.indices, QueueFamilyIndices { graphics: 1, present: 0 });
    assert_eq!(plan.queue_families, vec![1, 0]);
    assert_eq!(plan.surface.present_mode, PRESENT_MODE_MAILBOX);
    assert_eq!(plan.surface.extent, extent(640, 480));
}
