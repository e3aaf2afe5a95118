//! Presentation-chain negotiation: format, present mode, extent, image count
//! and sharing mode.
//!
//! The platform layer queries the surface and hands this module the raw
//! capability values (formats and present modes as the platform's numeric
//! codes, extents and counts as integers). The functions here apply the
//! deterministic tie-break rules and produce the parameters the chain is
//! created with.

use vstd::prelude::*;

use crate::device::lemma_first_from_props;
use crate::device::graphics_pred;
use crate::device::present_pred;
use crate::device::resolved_queue_indices;
use crate::device::QueueAssignment;
use crate::device::QueueFamilyInfo;

verus! {

/// Numeric code of the preferred surface format: 8-bit BGRA.
pub const FORMAT_B8G8R8A8_SRGB: u32 = 50;

/// Numeric code of the preferred color space: sRGB nonlinear.
pub const COLOR_SPACE_SRGB_NONLINEAR: u32 = 0;

/// Numeric code of the mailbox present mode (low-latency, non-tearing).
pub const PRESENT_MODE_MAILBOX: u32 = 1;

/// Numeric code of the FIFO present mode, which every surface supports.
pub const PRESENT_MODE_FIFO: u32 = 2;

/// Sentinel width reported by a surface whose extent tracks the window size.
pub const EXTENT_TRACKS_WINDOW: u32 = 0xffff_ffff;

/// One supported surface format: a pixel format paired with a color space,
/// both as the platform's numeric codes.
#[derive(Debug, Clone, Copy, PartialEq, Eq, Structural)]
pub struct SurfaceFormatInfo {
    pub format: u32,
    pub color_space: u32,
}

/// A two-dimensional pixel extent.
#[derive(Debug, Clone, Copy, PartialEq, Eq, Structural)]
pub struct Extent2d {
    pub width: u32,
    pub height: u32,
}

/// The surface capabilities the negotiation reads: image-count bounds (a zero
/// maximum means unbounded) and the reported current/minimum/maximum extents.
#[derive(Debug, Clone, Copy, PartialEq, Eq, Structural)]
pub struct SurfaceCapsInfo {
    pub min_image_count: u32,
    pub max_image_count: u32,
    pub current_extent: Extent2d,
    pub min_image_extent: Extent2d,
    pub max_image_extent: Extent2d,
}

/// Everything the surface reports for the chosen accelerator: capabilities,
/// supported formats, and supported present modes.
#[derive(Debug, Clone, PartialEq, Eq)]
pub struct SwapChainSupportDetails {
    pub capabilities: SurfaceCapsInfo,
    pub formats: Vec<SurfaceFormatInfo>,
    pub present_modes: Vec<u32>,
}

/// The preferred format entry: 8-bit BGRA in the sRGB-nonlinear color space,
/// exact match on both fields.
pub open spec fn preferred_format(f: SurfaceFormatInfo) -> bool {
    f.format == FORMAT_B8G8R8A8_SRGB && f.color_space == COLOR_SPACE_SRGB_NONLINEAR
}

/// Pick the chain's format: the 8-bit BGRA / sRGB-nonlinear entry when the
/// surface offers one, else the first format the surface reported.
pub fn choose_swapchain_format(available_formats: &Vec<SurfaceFormatInfo>) -> (r: SurfaceFormatInfo)
    requires
        available_formats@.len() > 0,
    ensures
        (exists|i: int| 0 <= i < available_formats@.len() && preferred_format(
            #[trigger] available_formats@[i],
        )) ==> preferred_format(r),
        !(exists|i: int| 0 <= i < available_formats@.len() && preferred_format(
            #[trigger] available_formats@[i],
        )) ==> r == available_formats@[0],
{
    let n = available_formats.len();
    let mut k: usize = 0;
    while k < n
        invariant
            n == available_formats@.len(),
            0 <= k <= n,
            forall|j: int| 0 <= j < k ==> !preferred_format(#[trigger] available_formats@[j]),
        decreases n - k,
    {
        let f = available_formats[k];
        if f.format == FORMAT_B8G8R8A8_SRGB && f.color_space == COLOR_SPACE_SRGB_NONLINEAR {
            return f;
        }
        k = k + 1;
    }
    available_formats[0]
}

/// Pick the chain's present mode: mailbox when the surface lists it, else
/// FIFO, which is defined as universally available and need not be listed.
pub fn choose_swapchain_present_mode(available_present_modes: &Vec<u32>) -> (r: u32)
    ensures
        available_present_modes@.contains(PRESENT_MODE_MAILBOX) ==> r == PRESENT_MODE_MAILBOX,
        !available_present_modes@.contains(PRESENT_MODE_MAILBOX) ==> r == PRESENT_MODE_FIFO,
{
    let n = available_present_modes.len();
    let mut k: usize = 0;
    while k < n
        invariant
            n == available_present_modes@.len(),
            0 <= k <= n,
            forall|j: int| 0 <= j < k ==> available_present_modes@[j] != PRESENT_MODE_MAILBOX,
        decreases n - k,
    {
        if available_present_modes[k] == PRESENT_MODE_MAILBOX {
            return PRESENT_MODE_MAILBOX;
        }
        k = k + 1;
    }
    PRESENT_MODE_FIFO
}

/// `v` clamped into the interval `[lo, hi]`.
pub open spec fn clamped(v: u32, lo: u32, hi: u32) -> u32 {
    if v < lo {
        lo
    } else if v > hi {
        hi
    } else {
        v
    }
}

/// Clamp one extent component into the surface's declared bounds.
fn clamp_u32(v: u32, lo: u32, hi: u32) -> (r: u32)
    requires
        lo <= hi,
    ensures
        r == clamped(v, lo, hi),
{
    if v < lo {
        lo
    } else if v > hi {
        hi
    } else {
        v
    }
}

/// Pick the chain's extent: when the surface reports the sentinel value that
/// says it tracks the window, use the live window pixel size clamped
/// component-wise into the surface's declared bounds; otherwise use the
/// surface-reported current extent verbatim, even where it differs from the
/// window size.
pub fn choose_swapchain_extent(
    capabilities: &SurfaceCapsInfo,
    window_width: u32,
    window_height: u32,
) -> (r: Extent2d)
    requires
        capabilities.min_image_extent.width <= capabilities.max_image_extent.width,
        capabilities.min_image_extent.height <= capabilities.max_image_extent.height,
    ensures
        capabilities.current_extent.width != EXTENT_TRACKS_WINDOW ==> r
            == capabilities.current_extent,
        capabilities.current_extent.width == EXTENT_TRACKS_WINDOW ==> r == (Extent2d {
            width: clamped(
                window_width,
                capabilities.min_image_extent.width,
                capabilities.max_image_extent.width,
            ),
            height: clamped(
                window_height,
                capabilities.min_image_extent.height,
                capabilities.max_image_extent.height,
            ),
        }),
{
    if capabilities.current_extent.width != EXTENT_TRACKS_WINDOW {
        capabilities.current_extent
    } else {
        Extent2d {
            width: clamp_u32(
                window_width,
                capabilities.min_image_extent.width,
                capabilities.max_image_extent.width,
            ),
            height: clamp_u32(
                window_height,
                capabilities.min_image_extent.height,
                capabilities.max_image_extent.height,
            ),
        }
    }
}

/// The image count the chain asks for: one more than the surface's minimum,
/// clamped down to the surface's maximum when a nonzero maximum is declared
/// (a zero maximum means unbounded).
pub open spec fn negotiated_image_count(caps: SurfaceCapsInfo) -> int {
    if caps.max_image_count > 0 && caps.min_image_count + 1 > caps.max_image_count {
        caps.max_image_count as int
    } else {
        caps.min_image_count + 1
    }
}

/// Pick the number of images the chain is created with.
pub fn choose_image_count(capabilities: &SurfaceCapsInfo) -> (r: u32)
    requires
        capabilities.min_image_count < u32::MAX,
    ensures
        r == negotiated_image_count(*capabilities),
{
    let desired = capabilities.min_image_count + 1;
    if capabilities.max_image_count > 0 && desired > capabilities.max_image_count {
        capabilities.max_image_count
    } else {
        desired
    }
}

/// How the chain's images are shared between queue families.
#[derive(Debug, Clone, Copy, PartialEq, Eq, Structural)]
pub enum ImageSharing {
    /// One family owns the images; no extra families are named.
    Exclusive,
    /// The named families access the images concurrently.
    Concurrent,
}

/// The sharing mode the chain declares for a queue assignment: concurrent
/// when graphics and present live in different families, exclusive otherwise.
pub open spec fn sharing_mode_for(qa: QueueAssignment) -> ImageSharing {
    if qa.graphics == qa.present {
        ImageSharing::Exclusive
    } else {
        ImageSharing::Concurrent
    }
}

/// The extra queue families the chain declaration names: both families under
/// concurrent sharing, none under exclusive sharing.
pub open spec fn sharing_families_for(qa: QueueAssignment) -> Seq<u32> {
    if qa.graphics == qa.present {
        Seq::<u32>::empty()
    } else {
        seq![qa.graphics, qa.present]
    }
}

/// The sharing declaration the chain is created with.
#[derive(Debug, Clone, PartialEq, Eq)]
pub struct SharingPlan {
    pub mode: ImageSharing,
    pub queue_family_indices: Vec<u32>,
}

/// Declare how the chain's images are shared: when the graphics and present
/// indices differ, concurrent access naming exactly those two families; when
/// they are equal, exclusive access naming zero extra families.
pub fn choose_sharing_mode(assignment: &QueueAssignment) -> (r: SharingPlan)
    ensures
        r.mode == sharing_mode_for(*assignment),
        r.queue_family_indices@ == sharing_families_for(*assignment),
{
    if assignment.graphics != assignment.present {
        let mut indices: Vec<u32> = Vec::new();
        indices.push(assignment.graphics);
        indices.push(assignment.present);
        proof {
            assert(indices@ =~= seq![assignment.graphics, assignment.present]);
        }
        SharingPlan { mode: ImageSharing::Concurrent, queue_family_indices: indices }
    } else {
        let indices: Vec<u32> = Vec::new();
        proof {
            assert(indices@ =~= Seq::<u32>::empty());
        }
        SharingPlan { mode: ImageSharing::Exclusive, queue_family_indices: indices }
    }
}

/// Every parameter the presentation chain is created with.
#[derive(Debug, Clone, PartialEq, Eq)]
pub struct SwapchainPlan {
    pub format: SurfaceFormatInfo,
    pub present_mode: u32,
    pub extent: Extent2d,
    pub image_count: u32,
    pub sharing: SharingPlan,
}

/// Negotiate the full set of chain-creation parameters from what the surface
/// reported, the resolved queue assignment, and the live window pixel size.
/// Each field follows its own selection rule; the platform layer creates the
/// chain from the result and retrieves the image handles.
pub fn create_swap_chain(
    support: &SwapChainSupportDetails,
    assignment: &QueueAssignment,
    window_width: u32,
    window_height: u32,
) -> (r: SwapchainPlan)
    requires
        support.formats@.len() > 0,
        support.capabilities.min_image_count < u32::MAX,
        support.capabilities.min_image_extent.width <= support.capabilities.max_image_extent.width,
        support.capabilities.min_image_extent.height
            <= support.capabilities.max_image_extent.height,
    ensures
        (exists|i: int| 0 <= i < support.formats@.len() && preferred_format(
            #[trigger] support.formats@[i],
        )) ==> preferred_format(r.format),
        !(exists|i: int| 0 <= i < support.formats@.len() && preferred_format(
            #[trigger] support.formats@[i],
        )) ==> r.format == support.formats@[0],
        support.present_modes@.contains(PRESENT_MODE_MAILBOX) ==> r.present_mode
            == PRESENT_MODE_MAILBOX,
        !support.present_modes@.contains(PRESENT_MODE_MAILBOX) ==> r.present_mode
            == PRESENT_MODE_FIFO,
        support.capabilities.current_extent.width != EXTENT_TRACKS_WINDOW ==> r.extent
            == support.capabilities.current_extent,
        support.capabilities.current_extent.width == EXTENT_TRACKS_WINDOW ==> r.extent == (Extent2d {
            width: clamped(
                window_width,
                support.capabilities.min_image_extent.width,
                support.capabilities.max_image_extent.width,
            ),
            height: clamped(
                window_height,
                support.capabilities.min_image_extent.height,
                support.capabilities.max_image_extent.height,
            ),
        }),
        r.image_count == negotiated_image_count(support.capabilities),
        r.sharing.mode == sharing_mode_for(*assignment),
        r.sharing.queue_family_indices@ == sharing_families_for(*assignment),
{
    let format = choose_swapchain_format(&support.formats);
    let present_mode = choose_swapchain_present_mode(&support.present_modes);
    let extent = choose_swapchain_extent(&support.capabilities, window_width, window_height);
    let image_count = choose_image_count(&support.capabilities);
    let sharing = choose_sharing_mode(assignment);
    SwapchainPlan { format, present_mode, extent, image_count, sharing }
}

/// For every queue-family list in which the graphics and present roles are
/// only available in different families (no single family has both, each role
/// is somewhere), resolution yields two distinct indices and the chain
/// declares concurrent sharing naming exactly those two families.
pub proof fn lemma_distinct_roles_concurrent(fams: Seq<QueueFamilyInfo>)
    requires
        fams.len() <= u32::MAX,
        exists|i: int| 0 <= i < fams.len() && (#[trigger] fams[i]).supports_graphics,
        exists|i: int| 0 <= i < fams.len() && (#[trigger] fams[i]).supports_present,
        forall|i: int|
            0 <= i < fams.len() ==> !((#[trigger] fams[i]).supports_graphics
                && fams[i].supports_present),
    ensures
        (match resolved_queue_indices(fams) {
            Some((g, p)) => {
                let qa = QueueAssignment { graphics: g as u32, present: p as u32 };
                &&& g != p
                &&& sharing_mode_for(qa) is Concurrent
                &&& sharing_families_for(qa) == seq![g as u32, p as u32]
            },
            None => false,
        }),
{
    lemma_first_from_props(fams, 0, graphics_pred());
    lemma_first_from_props(fams, 0, present_pred());
    let wg = choose|i: int| 0 <= i < fams.len() && fams[i].supports_graphics;
    let wp = choose|i: int| 0 <= i < fams.len() && fams[i].supports_present;
    assert(graphics_pred()(fams[wg]));
    assert(present_pred()(fams[wp]));
    match resolved_queue_indices(fams) {
        Some((g, p)) => {
            assert(graphics_pred()(fams[g]));
            assert(present_pred()(fams[p]));
            assert(g != p);
        },
        None => {},
    }
}

/// For every queue-family list whose first capable family satisfies both
/// roles, resolution yields one index for both, and the chain declares
/// exclusive sharing naming zero extra families.
pub proof fn lemma_shared_role_exclusive(fams: Seq<QueueFamilyInfo>, i: int)
    requires
        fams.len() <= u32::MAX,
        0 <= i < fams.len(),
        fams[i].supports_graphics && fams[i].supports_present,
        forall|j: int|
            0 <= j < i ==> !(#[trigger] fams[j]).supports_graphics && !fams[j].supports_present,
    ensures
        resolved_queue_indices(fams) == Some((i, i)),
        ({
            let qa = QueueAssignment { graphics: i as u32, present: i as u32 };
            &&& sharing_mode_for(qa) is Exclusive
            &&& sharing_families_for(qa) == Seq::<u32>::empty()
        }),
{
    lemma_first_from_props(fams, 0, graphics_pred());
    lemma_first_from_props(fams, 0, present_pred());
    assert(graphics_pred()(fams[i]));
    assert(present_pred()(fams[i]));
    match crate::device::first_from(fams, 0, graphics_pred()) {
        Some(k) => {
            if k < i {
                assert(graphics_pred()(fams[k]));
            }
            assert(k == i);
        },
        None => {
            assert(false);
        },
    }
    match crate::device::first_from(fams, 0, present_pred()) {
        Some(k) => {
            if k < i {
                assert(present_pred()(fams[k]));
            }
            assert(k == i);
        },
        None => {
            assert(false);
        },
    }
}

} // verus!
