//! The presentable-image chain and its frame synchronisation: surface
//! format, present mode, extent and image-count decisions; depth-format
//! selection; the render-pass description; and the per-frame-slot fence
//! and per-presentable-image fence protocol that keeps the CPU from
//! reusing a frame slot or an image before the GPU is done with it.

use vstd::prelude::*;
use crate::flags::has_bits;
use crate::flags::contains_bits;
use crate::flags::FORMAT_B8G8R8A8_SRGB;
use crate::flags::COLOR_SPACE_SRGB_NONLINEAR;
use crate::flags::PRESENT_MODE_MAILBOX;
use crate::flags::PRESENT_MODE_FIFO;
use crate::flags::FORMAT_D32_SFLOAT;
use crate::flags::FORMAT_D32_SFLOAT_S8_UINT;
use crate::flags::FORMAT_D24_UNORM_S8_UINT;
use crate::flags::TILING_OPTIMAL;
use crate::flags::TILING_LINEAR;
use crate::flags::FORMAT_FEATURE_DEPTH_STENCIL_ATTACHMENT;
use crate::flags::ACCESS_COLOR_ATTACHMENT_WRITE;
use crate::flags::ACCESS_DEPTH_STENCIL_ATTACHMENT_WRITE;
use crate::flags::ACCESS_NONE;
use crate::flags::STAGE_COLOR_ATTACHMENT_OUTPUT;
use crate::flags::STAGE_EARLY_FRAGMENT_TESTS;
use crate::image::ImageLayout;

verus! {

/// Number of frame slots cycling across frames, independent of how many
/// presentable images the chain holds.
pub const MAX_FRAMES: usize = 2;

/// A surface extent in pixels.
#[derive(Clone, Copy, PartialEq, Eq, Structural, Debug)]
pub struct Extent2D {
    /// Width in pixels.
    pub width: u32,
    /// Height in pixels.
    pub height: u32,
}

/// A surface format: pixel format code and colour space code.
#[derive(Clone, Copy, PartialEq, Eq, Structural, Debug)]
pub struct SurfaceFormat {
    /// Pixel format code.
    pub format: u32,
    /// Colour space code.
    pub color_space: u32,
}

/// What the surface reports about the chains it can back.
#[derive(Clone, Copy, PartialEq, Eq, Structural, Debug)]
pub struct SurfaceCapabilities {
    /// Fewest images a chain may hold.
    pub min_image_count: u32,
    /// Most images a chain may hold; zero means no limit.
    pub max_image_count: u32,
    /// The surface's current extent; a width of `u32::MAX` means the
    /// surface lets the chain pick.
    pub current_extent: Extent2D,
    /// Smallest extent the surface accepts.
    pub min_image_extent: Extent2D,
    /// Largest extent the surface accepts.
    pub max_image_extent: Extent2D,
    /// The surface's current transform code.
    pub current_transform: u32,
}

/// Everything queried from the surface before building a chain.
pub struct SwapchainSupport {
    /// The surface's capabilities.
    pub capabilities: SurfaceCapabilities,
    /// The surface formats on offer.
    pub formats: Vec<SurfaceFormat>,
    /// The present modes on offer.
    pub present_modes: Vec<u32>,
}

/// Per-format support, as the device reports it.
#[derive(Clone, Copy, PartialEq, Eq, Structural, Debug)]
pub struct FormatProperties {
    /// Feature bits under linear tiling.
    pub linear_tiling_features: u32,
    /// Feature bits under optimal tiling.
    pub optimal_tiling_features: u32,
}

/// How an operation on the chain failed.
#[derive(Clone, Copy, PartialEq, Eq, Structural, Debug)]
pub enum SwapchainError {
    /// The surface no longer matches the chain; rebuild and retry.
    /// The one recoverable condition.
    OutOfDate,
    /// No candidate depth format is usable; fatal.
    NoSupportedFormat,
    /// The platform rejected the operation for another reason; fatal.
    Failure,
}

/// Whether the chain may be used for acquire and present.
#[derive(Clone, Copy, PartialEq, Eq, Structural, Debug)]
pub enum SwapchainState {
    /// Normal operation.
    Valid,
    /// The surface changed; the chain must be rebuilt first.
    OutOfDate,
}

/// What the platform answered to an acquire request.
#[derive(Clone, Copy, PartialEq, Eq, Structural, Debug)]
pub enum AcquireResult {
    /// An image is available.
    Image {
        /// Index of the acquired presentable image.
        index: u32,
        /// Whether the platform reported the chain suboptimal.
        suboptimal: bool,
    },
    /// The chain no longer matches the surface.
    OutOfDate,
    /// Any other rejection; fatal.
    Failure,
}

/// What the platform answered to a present request.
#[derive(Clone, Copy, PartialEq, Eq, Structural, Debug)]
pub enum PresentResult {
    /// The image was queued for presentation.
    Presented {
        /// Whether the platform reported the chain suboptimal.
        suboptimal: bool,
    },
    /// The chain no longer matches the surface.
    OutOfDate,
    /// Any other rejection; fatal.
    Failure,
}

/// Whether a surface format is the preferred one: sRGB-encoded BGRA in
/// the non-linear sRGB colour space.
pub open spec fn preferred_format(f: SurfaceFormat) -> bool {
    f.format == FORMAT_B8G8R8A8_SRGB && f.color_space == COLOR_SPACE_SRGB_NONLINEAR
}

/// The first preferred format of the list, if any.
pub open spec fn first_preferred(formats: Seq<SurfaceFormat>) -> Option<SurfaceFormat>
    decreases formats.len(),
{
    if formats.len() == 0 {
        None
    } else if preferred_format(formats.first()) {
        Some(formats.first())
    } else {
        first_preferred(formats.drop_first())
    }
}

/// The chosen surface format: the first preferred format, else the
/// first format on offer.
pub open spec fn choose_format_spec(formats: Seq<SurfaceFormat>) -> SurfaceFormat {
    match first_preferred(formats) {
        Some(f) => f,
        None => formats[0],
    }
}

/// The chosen present mode: mailbox when offered, else first-in
/// first-out, which every surface offers.
pub open spec fn choose_present_mode_spec(modes: Seq<u32>) -> u32 {
    if modes.contains(PRESENT_MODE_MAILBOX) {
        PRESENT_MODE_MAILBOX
    } else {
        PRESENT_MODE_FIFO
    }
}

/// One dimension of the fallback extent: the requested value clamped
/// between the surface's minimum and maximum for that dimension.
pub open spec fn bounded_dim(lo: u32, hi: u32, v: u32) -> u32 {
    if v < lo {
        lo
    } else if v > hi {
        hi
    } else {
        v
    }
}

/// The chosen extent: the surface's current extent when it is fixed,
/// else the requested extent clamped dimension-wise into the surface's
/// accepted range.
pub open spec fn choose_extent_spec(caps: SurfaceCapabilities, extent: Extent2D) -> Extent2D {
    if caps.current_extent.width != u32::MAX {
        caps.current_extent
    } else {
        Extent2D {
            width: bounded_dim(caps.min_image_extent.width, caps.max_image_extent.width,
                extent.width),
            height: bounded_dim(caps.min_image_extent.height, caps.max_image_extent.height,
                extent.height),
        }
    }
}

/// The number of presentable images requested: one more than the
/// surface's minimum, clamped to its maximum when one exists.
pub open spec fn image_count_spec(caps: SurfaceCapabilities) -> u32 {
    if caps.max_image_count > 0 && caps.min_image_count + 1 > caps.max_image_count {
        caps.max_image_count
    } else {
        (caps.min_image_count + 1) as u32
    }
}

/// Whether the chain's images must be shared concurrently between two
/// queue families: exactly when graphics and presentation were assigned
/// distinct families.
pub open spec fn sharing_concurrent_spec(graphics_idx: Option<u32>, surface_idx: Option<u32>) -> bool {
    graphics_idx is Some && surface_idx is Some && graphics_idx != surface_idx
}

/// The depth formats tried, in preference order: highest-precision
/// float depth first, then float depth with stencil, then packed
/// 24-bit depth with stencil.
pub open spec fn depth_candidates() -> Seq<u32> {
    seq![FORMAT_D32_SFLOAT, FORMAT_D32_SFLOAT_S8_UINT, FORMAT_D24_UNORM_S8_UINT]
}

/// Whether a format's reported properties support the features under
/// the given tiling.
pub open spec fn format_supported(props: FormatProperties, tiling: u32, features: u32) -> bool {
    ||| (tiling == TILING_LINEAR && has_bits(props.linear_tiling_features, features))
    ||| (tiling == TILING_OPTIMAL && has_bits(props.optimal_tiling_features, features))
}

/// Pick the first candidate format whose reported properties support
/// the features under the given tiling; fail exactly when none does.
/// `props` reports the device's support for each candidate, in order.
pub fn find_supported_format(
    candidates: &Vec<u32>,
    props: &Vec<FormatProperties>,
    tiling: u32,
    features: u32,
) -> (r: Result<u32, SwapchainError>)
    requires
        props@.len() == candidates@.len(),
    ensures
        match r {
            Ok(f) => exists|i: int| {
                &&& 0 <= i < candidates@.len()
                &&& f == candidates@[i]
                &&& format_supported(#[trigger] props@[i], tiling, features)
                &&& forall|k: int| 0 <= k < i ==> !format_supported(#[trigger] props@[k], tiling, features)
            },
            Err(e) => {
                &&& e == SwapchainError::NoSupportedFormat
                &&& forall|k: int| 0 <= k < candidates@.len()
                    ==> !format_supported(#[trigger] props@[k], tiling, features)
            },
        },
{
    let mut i: usize = 0;
    while i < candidates.len()
        invariant
            props@.len() == candidates@.len(),
            i <= candidates@.len(),
            forall|k: int| 0 <= k < i ==> !format_supported(#[trigger] props@[k], tiling, features),
        decreases candidates@.len() - i,
    {
        let p = &props[i];
        if tiling == TILING_LINEAR && contains_bits(p.linear_tiling_features, features) {
            return Ok(candidates[i]);
        } else if tiling == TILING_OPTIMAL && contains_bits(p.optimal_tiling_features, features) {
            return Ok(candidates[i]);
        }
        i = i + 1;
    }
    Err(SwapchainError::NoSupportedFormat)
}

/// Whether a depth format is the first of the candidate list that the
/// device supports as an optimally tiled depth/stencil attachment,
/// given the device's reported properties for each candidate.
pub open spec fn depth_format_ok(depth_format: u32, props: Seq<FormatProperties>) -> bool {
    exists|i: int| {
        &&& 0 <= i < depth_candidates().len()
        &&& depth_format == depth_candidates()[i]
        &&& format_supported(#[trigger] props[i], TILING_OPTIMAL,
            FORMAT_FEATURE_DEPTH_STENCIL_ATTACHMENT)
        &&& forall|k: int| 0 <= k < i ==> !format_supported(#[trigger] props[k], TILING_OPTIMAL,
            FORMAT_FEATURE_DEPTH_STENCIL_ATTACHMENT)
    }
}

/// Whether no depth candidate is supported at all.
pub open spec fn no_depth_format(props: Seq<FormatProperties>) -> bool {
    forall|k: int| 0 <= k < depth_candidates().len()
        ==> !format_supported(#[trigger] props[k], TILING_OPTIMAL,
            FORMAT_FEATURE_DEPTH_STENCIL_ATTACHMENT)
}

/// Pick the depth format: the first candidate the device supports as an
/// optimally tiled depth/stencil attachment.  `props` reports the
/// device's support for each candidate of [`depth_candidates`], in
/// order.
pub fn find_depth_format(props: &Vec<FormatProperties>) -> (r: Result<u32, SwapchainError>)
    requires
        props@.len() == depth_candidates().len(),
    ensures
        match r {
            Ok(f) => depth_format_ok(f, props@),
            Err(e) => e == SwapchainError::NoSupportedFormat && no_depth_format(props@),
        },
{
    let mut candidates: Vec<u32> = Vec::new();
    candidates.push(FORMAT_D32_SFLOAT);
    candidates.push(FORMAT_D32_SFLOAT_S8_UINT);
    candidates.push(FORMAT_D24_UNORM_S8_UINT);
    proof {
        assert(candidates@ =~= depth_candidates());
    }
    find_supported_format(&candidates, props, TILING_OPTIMAL,
        FORMAT_FEATURE_DEPTH_STENCIL_ATTACHMENT)
}

/// How an attachment's contents are treated when the pass begins.
#[derive(Clone, Copy, PartialEq, Eq, Structural, Debug)]
pub enum LoadOp {
    /// Clear the attachment.
    Clear,
    /// Leave the contents undefined.
    DontCare,
}

/// How an attachment's contents are treated when the pass ends.
#[derive(Clone, Copy, PartialEq, Eq, Structural, Debug)]
pub enum StoreOp {
    /// Keep the contents.
    Store,
    /// Discard the contents.
    DontCare,
}

/// One attachment of the render pass.
#[derive(Clone, Copy, PartialEq, Eq, Structural, Debug)]
pub struct AttachmentPlan {
    /// Format code of the attachment.
    pub format: u32,
    /// Sample count.
    pub samples: u32,
    /// Treatment of the contents at pass begin.
    pub load_op: LoadOp,
    /// Treatment of the contents at pass end.
    pub store_op: StoreOp,
    /// Treatment of the stencil aspect at pass begin.
    pub stencil_load_op: LoadOp,
    /// Treatment of the stencil aspect at pass end.
    pub stencil_store_op: StoreOp,
    /// Layout the attachment is in when the pass begins.
    pub initial_layout: ImageLayout,
    /// Layout the attachment is left in when the pass ends.
    pub final_layout: ImageLayout,
}

/// The single subpass dependency: an external barrier ordering the
/// implicit layout transition before the pass's first writes.
#[derive(Clone, Copy, PartialEq, Eq, Structural, Debug)]
pub struct SubpassDependencyPlan {
    /// Whether the source is the external (pre-pass) scope.
    pub src_external: bool,
    /// Index of the destination subpass.
    pub dst_subpass: u32,
    /// Accesses completed in the source scope.
    pub src_access_mask: u32,
    /// Accesses gated in the destination scope.
    pub dst_access_mask: u32,
    /// Stages of the source scope.
    pub src_stage_mask: u32,
    /// Stages of the destination scope.
    pub dst_stage_mask: u32,
}

/// The render pass: one colour and one depth attachment, one subpass,
/// one external dependency.
#[derive(Clone, Copy, PartialEq, Eq, Structural, Debug)]
pub struct RenderPassPlan {
    /// The colour attachment.
    pub color: AttachmentPlan,
    /// The depth attachment.
    pub depth: AttachmentPlan,
    /// The external dependency guarding the pass's first writes.
    pub dependency: SubpassDependencyPlan,
    /// Number of subpasses.
    pub subpass_count: u32,
}

/// The render pass over the given colour and depth formats: colour is
/// cleared on load, kept on store and left presentation-ready; depth is
/// cleared on load and discarded on store; the single external
/// dependency orders colour-attachment and depth writes at the
/// colour-output and early-fragment-test stages after the pre-pass
/// scope, so the implicit transition cannot race a previous frame.
pub open spec fn renderpass_spec(color_format: u32, depth_format: u32) -> RenderPassPlan {
    RenderPassPlan {
        color: AttachmentPlan {
            format: color_format,
            samples: 1,
            load_op: LoadOp::Clear,
            store_op: StoreOp::Store,
            stencil_load_op: LoadOp::DontCare,
            stencil_store_op: StoreOp::DontCare,
            initial_layout: ImageLayout::Undefined,
            final_layout: ImageLayout::PresentSrc,
        },
        depth: AttachmentPlan {
            format: depth_format,
            samples: 1,
            load_op: LoadOp::Clear,
            store_op: StoreOp::DontCare,
            stencil_load_op: LoadOp::DontCare,
            stencil_store_op: StoreOp::DontCare,
            initial_layout: ImageLayout::Undefined,
            final_layout: ImageLayout::DepthStencilAttachmentOptimal,
        },
        dependency: SubpassDependencyPlan {
            src_external: true,
            dst_subpass: 0,
            src_access_mask: ACCESS_NONE,
            dst_access_mask: ACCESS_COLOR_ATTACHMENT_WRITE | ACCESS_DEPTH_STENCIL_ATTACHMENT_WRITE,
            src_stage_mask: STAGE_COLOR_ATTACHMENT_OUTPUT | STAGE_EARLY_FRAGMENT_TESTS,
            dst_stage_mask: STAGE_COLOR_ATTACHMENT_OUTPUT | STAGE_EARLY_FRAGMENT_TESTS,
        },
        subpass_count: 1,
    }
}

/// The synchronisation half of the chain, as one abstract state: the
/// per-slot fences (`true` means signaled, safe for CPU reuse), the
/// slot that last used each presentable image, the current frame slot,
/// and whether the chain is still valid.
pub ghost struct SyncView {
    /// Per-slot fence state; `true` means signaled.
    pub fences: Seq<bool>,
    /// For each presentable image, the slot that last used it.
    pub images: Seq<Option<usize>>,
    /// The current frame slot.
    pub frame: usize,
    /// Whether the chain may be used.
    pub state: SwapchainState,
}

/// The acquire step on the synchronisation state: wait on the current
/// slot's fence (it is signaled after the wait), and leave the chain
/// valid unless the platform reported it out of date.
pub open spec fn acquire_sync(v: SyncView, acquired: AcquireResult) -> SyncView {
    SyncView {
        fences: v.fences.update(v.frame as int, true),
        state: if acquired is OutOfDate {
            SwapchainState::OutOfDate
        } else {
            SwapchainState::Valid
        },
        ..v
    }
}

/// The fences after a submit targeting `index`: the fence of the slot
/// that last used the image is waited (signaled) first, then the
/// current slot's fence is reset for the new submission.
pub open spec fn submit_fences(fences: Seq<bool>, prev: Option<usize>, frame: int) -> Seq<bool> {
    let waited = match prev {
        Some(s) => fences.update(s as int, true),
        None => fences,
    };
    waited.update(frame, false)
}

/// The submit step on the synchronisation state: wait out the image's
/// pending slot, reset and re-arm the current slot's fence, record the
/// current slot as the image's last user, and advance the frame slot
/// modulo the slot count whatever the present reported.
pub open spec fn submit_sync(v: SyncView, index: int, present: PresentResult) -> SyncView {
    SyncView {
        fences: submit_fences(v.fences, v.images[index], v.frame as int),
        images: v.images.update(index, Some(v.frame)),
        frame: ((v.frame + 1) % (MAX_FRAMES as int)) as usize,
        state: if present is OutOfDate {
            SwapchainState::OutOfDate
        } else {
            SwapchainState::Valid
        },
    }
}

/// The presentable-image chain: the decisions it was built from, the
/// render pass over it, and the frame-synchronisation state.
pub struct Swapchain {
    /// The chosen surface format.
    pub format: SurfaceFormat,
    /// The chosen present mode code.
    pub present_mode: u32,
    /// The chain's extent in pixels.
    pub extent: Extent2D,
    /// Number of presentable images requested of the platform.
    pub image_count: u32,
    /// The chosen depth attachment format code.
    pub depth_format: u32,
    /// The render pass drawn inside each frame.
    pub renderpass: RenderPassPlan,
    /// Whether images are shared concurrently between two families.
    pub sharing_concurrent: bool,
    /// The families sharing the images, when sharing is concurrent.
    pub sharing_families: Vec<u32>,
    /// Whether the chain may be used for acquire and present.
    pub state: SwapchainState,
    /// Per-frame-slot fence state; `true` means signaled.
    pub in_flight_fence: Vec<bool>,
    /// For each presentable image, the frame slot that last used it.
    pub in_flight_images: Vec<Option<usize>>,
    /// The current frame slot.
    pub current_frame: usize,
}

/// Whether two chains were built from the same decisions.
pub open spec fn same_config(a: Swapchain, b: Swapchain) -> bool {
    &&& a.format == b.format
    &&& a.present_mode == b.present_mode
    &&& a.extent == b.extent
    &&& a.image_count == b.image_count
    &&& a.depth_format == b.depth_format
    &&& a.renderpass == b.renderpass
    &&& a.sharing_concurrent == b.sharing_concurrent
    &&& a.sharing_families@ == b.sharing_families@
}

/// Whether a chain's decisions are the ones construction makes from the
/// surface's answers, the requested extent and the queue assignment.
pub open spec fn configured_from(
    s: Swapchain,
    support: SwapchainSupport,
    depth_props: Seq<FormatProperties>,
    graphics_idx: Option<u32>,
    surface_idx: Option<u32>,
    extent: Extent2D,
) -> bool {
    &&& s.format == choose_format_spec(support.formats@)
    &&& s.present_mode == choose_present_mode_spec(support.present_modes@)
    &&& s.extent == choose_extent_spec(support.capabilities, extent)
    &&& s.image_count == image_count_spec(support.capabilities)
    &&& depth_format_ok(s.depth_format, depth_props)
    &&& s.renderpass == renderpass_spec(s.format.format, s.depth_format)
    &&& s.sharing_concurrent == sharing_concurrent_spec(graphics_idx, surface_idx)
    &&& (if sharing_concurrent_spec(graphics_idx, surface_idx) {
        s.sharing_families@ == seq![graphics_idx->0, surface_idx->0]
    } else {
        s.sharing_families@ == Seq::<u32>::empty()
    })
}

impl Swapchain {
    /// The synchronisation half of the chain.
    pub open spec fn sync(&self) -> SyncView {
        SyncView {
            fences: self.in_flight_fence@,
            images: self.in_flight_images@,
            frame: self.current_frame,
            state: self.state,
        }
    }

    /// Well-formedness: one fence per frame slot, the current slot in
    /// range, one last-user entry per presentable image, every recorded
    /// last user a real slot.
    pub open spec fn wf(&self) -> bool {
        &&& self.in_flight_fence@.len() == MAX_FRAMES
        &&& self.current_frame < MAX_FRAMES
        &&& self.in_flight_images@.len() == self.image_count
        &&& forall|i: int| 0 <= i < self.in_flight_images@.len()
            ==> ((#[trigger] self.in_flight_images@[i]) matches Some(s) ==> s < MAX_FRAMES)
    }

    /// Build a chain against the surface's answers: choose the format,
    /// present mode, extent, image count, depth format and sharing mode;
    /// lay out the render pass; and create the synchronisation objects,
    /// every slot fence signaled so the first frames need not wait.
    /// Fails exactly when no depth candidate is supported.  `depth_props`
    /// reports the device's support for each entry of
    /// [`depth_candidates`], in order.
    pub fn new(
        support: &SwapchainSupport,
        depth_props: &Vec<FormatProperties>,
        graphics_idx: Option<u32>,
        surface_idx: Option<u32>,
        extent: Extent2D,
    ) -> (r: Result<Self, SwapchainError>)
        requires
            support.formats@.len() > 0,
            support.capabilities.min_image_count < u32::MAX,
            depth_props@.len() == depth_candidates().len(),
        ensures
            match r {
                Ok(s) => {
                    &&& configured_from(s, *support, depth_props@, graphics_idx, surface_idx, extent)
                    &&& s.wf()
                    &&& s.state == SwapchainState::Valid
                    &&& s.current_frame == 0
                    &&& forall|i: int| 0 <= i < MAX_FRAMES ==> #[trigger] s.in_flight_fence@[i] == true
                    &&& forall|i: int| 0 <= i < s.in_flight_images@.len()
                        ==> #[trigger] s.in_flight_images@[i] is None
                },
                Err(e) => e == SwapchainError::NoSupportedFormat && no_depth_format(depth_props@),
            },
    {
        let depth_format = find_depth_format(depth_props)?;
        let format = Self::choose_format(&support.formats);
        let present_mode = Self::choose_present_mode(&support.present_modes);
        let chosen_extent = Self::choose_extent(&support.capabilities, extent);

        let mut image_count: u32 = support.capabilities.min_image_count + 1;
        if support.capabilities.max_image_count > 0
            && image_count > support.capabilities.max_image_count {
            image_count = support.capabilities.max_image_count;
        }

        let concurrent = match (graphics_idx, surface_idx) {
            (Some(g), Some(s)) => g != s,
            _ => false,
        };
        let mut sharing_families: Vec<u32> = Vec::new();
        if concurrent {
            sharing_families.push(graphics_idx.unwrap());
            sharing_families.push(surface_idx.unwrap());
        }
        proof {
            if sharing_concurrent_spec(graphics_idx, surface_idx) {
                assert(sharing_families@ =~= seq![graphics_idx->0, surface_idx->0]);
            } else {
                assert(sharing_families@ =~= Seq::<u32>::empty());
            }
        }

        let renderpass = Self::create_renderpass(format.format, depth_format);

        let mut in_flight_fence: Vec<bool> = Vec::new();
        let mut i: usize = 0;
        while i < MAX_FRAMES
            invariant
                i <= MAX_FRAMES,
                in_flight_fence@.len() == i,
                forall|k: int| 0 <= k < i ==> #[trigger] in_flight_fence@[k] == true,
            decreases MAX_FRAMES - i,
        {
            in_flight_fence.push(true);
            i = i + 1;
        }
        let mut in_flight_images: Vec<Option<usize>> = Vec::new();
        let mut j: u32 = 0;
        while j < image_count
            invariant
                j <= image_count,
                in_flight_images@.len() == j,
                forall|k: int| 0 <= k < j ==> #[trigger] in_flight_images@[k] is None,
            decreases image_count - j,
        {
            in_flight_images.push(None);
            j = j + 1;
        }

        Ok(Self {
            format,
            present_mode,
            extent: chosen_extent,
            image_count,
            depth_format,
            renderpass,
            sharing_concurrent: concurrent,
            sharing_families,
            state: SwapchainState::Valid,
            in_flight_fence,
            in_flight_images,
            current_frame: 0,
        })
    }

    /// The first preferred surface format of the list, else its first
    /// entry.
    pub fn choose_format(formats: &Vec<SurfaceFormat>) -> (r: SurfaceFormat)
        requires
            formats@.len() > 0,
        ensures
            r == choose_format_spec(formats@),
    {
        let mut i: usize = 0;
        proof {
            assert(formats@.skip(0) =~= formats@);
        }
        while i < formats.len()
            invariant
                i <= formats@.len(),
                first_preferred(formats@) == first_preferred(formats@.skip(i as int)),
            decreases formats@.len() - i,
        {
            let f = &formats[i];
            if f.format == FORMAT_B8G8R8A8_SRGB && f.color_space == COLOR_SPACE_SRGB_NONLINEAR {
                proof {
                    assert(formats@.skip(i as int).first() == formats@[i as int]);
                }
                return formats[i];
            }
            proof {
                assert(formats@.skip(i as int).drop_first() =~= formats@.skip(i + 1));
            }
            i = i + 1;
        }
        proof {
            assert(formats@.skip(formats@.len() as int) =~= Seq::<SurfaceFormat>::empty());
        }
        formats[0]
    }

    /// Mailbox when offered, else first-in first-out.
    pub fn choose_present_mode(present_modes: &Vec<u32>) -> (r: u32)
        ensures
            r == choose_present_mode_spec(present_modes@),
    {
        let mut i: usize = 0;
        while i < present_modes.len()
            invariant
                i <= present_modes@.len(),
                forall|k: int| 0 <= k < i ==> #[trigger] present_modes@[k] != PRESENT_MODE_MAILBOX,
            decreases present_modes@.len() - i,
        {
            if present_modes[i] == PRESENT_MODE_MAILBOX {
                return PRESENT_MODE_MAILBOX;
            }
            i = i + 1;
        }
        PRESENT_MODE_FIFO
    }

    /// The surface's current extent when fixed, else the requested
    /// extent clamped dimension-wise into the surface's accepted range.
    pub fn choose_extent(capabilities: &SurfaceCapabilities, extent: Extent2D) -> (r: Extent2D)
        ensures
            r == choose_extent_spec(*capabilities, extent),
    {
        if capabilities.current_extent.width != u32::MAX {
            return capabilities.current_extent;
        }
        let min_w = capabilities.min_image_extent.width;
        let max_w = capabilities.max_image_extent.width;
        let min_h = capabilities.min_image_extent.height;
        let max_h = capabilities.max_image_extent.height;
        let width = if extent.width < min_w {
            min_w
        } else if extent.width > max_w {
            max_w
        } else {
            extent.width
        };
        let height = if extent.height < min_h {
            min_h
        } else if extent.height > max_h {
            max_h
        } else {
            extent.height
        };
        Extent2D { width, height }
    }

    /// The render pass over the given colour and depth formats.
    pub fn create_renderpass(color_format: u32, depth_format: u32) -> (r: RenderPassPlan)
        ensures
            r == renderpass_spec(color_format, depth_format),
    {
        RenderPassPlan {
            color: AttachmentPlan {
                format: color_format,
                samples: 1,
                load_op: LoadOp::Clear,
                store_op: StoreOp::Store,
                stencil_load_op: LoadOp::DontCare,
                stencil_store_op: StoreOp::DontCare,
                initial_layout: ImageLayout::Undefined,
                final_layout: ImageLayout::PresentSrc,
            },
            depth: AttachmentPlan {
                format: depth_format,
                samples: 1,
                load_op: LoadOp::Clear,
                store_op: StoreOp::DontCare,
                stencil_load_op: LoadOp::DontCare,
                stencil_store_op: StoreOp::DontCare,
                initial_layout: ImageLayout::Undefined,
                final_layout: ImageLayout::DepthStencilAttachmentOptimal,
            },
            dependency: SubpassDependencyPlan {
                src_external: true,
                dst_subpass: 0,
                src_access_mask: ACCESS_NONE,
                dst_access_mask: ACCESS_COLOR_ATTACHMENT_WRITE
                    | ACCESS_DEPTH_STENCIL_ATTACHMENT_WRITE,
                src_stage_mask: STAGE_COLOR_ATTACHMENT_OUTPUT | STAGE_EARLY_FRAGMENT_TESTS,
                dst_stage_mask: STAGE_COLOR_ATTACHMENT_OUTPUT | STAGE_EARLY_FRAGMENT_TESTS,
            },
            subpass_count: 1,
        }
    }

    /// Wait on the current frame slot's in-flight fence — after this the
    /// slot's previous submission is complete and its command buffer is
    /// safe for CPU reuse — then pass on the platform's answer to the
    /// acquire request: the acquired image index, or out-of-date, which
    /// marks the chain for rebuilding.
    pub fn next_image(&mut self, acquired: AcquireResult) -> (r: Result<(u32, bool), SwapchainError>)
        requires
            old(self).wf(),
            old(self).state == SwapchainState::Valid,
        ensures
            final(self).wf(),
            same_config(*final(self), *old(self)),
            final(self).sync() == acquire_sync(old(self).sync(), acquired),
            final(self).in_flight_fence@[old(self).current_frame as int] == true,
            final(self).current_frame == old(self).current_frame,
            match acquired {
                AcquireResult::Image { index, suboptimal } => r == Ok::<(u32, bool), SwapchainError>(
                    (index, suboptimal),
                ),
                AcquireResult::OutOfDate => r == Err::<(u32, bool), SwapchainError>(
                    SwapchainError::OutOfDate,
                ),
                AcquireResult::Failure => r == Err::<(u32, bool), SwapchainError>(
                    SwapchainError::Failure,
                ),
            },
    {
        let waited = &mut self.in_flight_fence[self.current_frame];
        *waited = true;
        match acquired {
            AcquireResult::Image { index, suboptimal } => {
                self.state = SwapchainState::Valid;
                Ok((index, suboptimal))
            },
            AcquireResult::OutOfDate => {
                self.state = SwapchainState::OutOfDate;
                Err(SwapchainError::OutOfDate)
            },
            AcquireResult::Failure => {
                self.state = SwapchainState::Valid;
                Err(SwapchainError::Failure)
            },
        }
    }

    /// Submit the recorded work for presentable image `index`: if the
    /// image was last used by a still-pending frame slot, wait on that
    /// slot's fence first, so two in-flight frames never write the same
    /// image; record the current slot as the image's last user; reset
    /// the current slot's fence for the new submission; pass on the
    /// present answer; and advance the frame slot modulo the slot count
    /// whatever the present reported.  The current slot's fence must
    /// have been waited by the acquire of this frame.
    pub fn submit(&mut self, index: usize, present: PresentResult) -> (r: (u32, Result<
        bool,
        SwapchainError,
    >))
        requires
            old(self).wf(),
            old(self).state == SwapchainState::Valid,
            index < old(self).in_flight_images@.len(),
            old(self).in_flight_fence@[old(self).current_frame as int] == true,
        ensures
            final(self).wf(),
            same_config(*final(self), *old(self)),
            final(self).sync() == submit_sync(old(self).sync(), index as int, present),
            (old(self).in_flight_images@[index as int] matches Some(s)
                ==> final(self).in_flight_fence@[s as int] || s == old(self).current_frame),
            r.0 == index as u32,
            match present {
                PresentResult::Presented { suboptimal } => r.1 == Ok::<bool, SwapchainError>(
                    suboptimal,
                ),
                PresentResult::OutOfDate => r.1 == Err::<bool, SwapchainError>(
                    SwapchainError::OutOfDate,
                ),
                PresentResult::Failure => r.1 == Err::<bool, SwapchainError>(
                    SwapchainError::Failure,
                ),
            },
    {
        if let Some(s) = self.in_flight_images[index] {
            let pending = &mut self.in_flight_fence[s];
            *pending = true;
        }
        let last_user = &mut self.in_flight_images[index];
        *last_user = Some(self.current_frame);
        let armed = &mut self.in_flight_fence[self.current_frame];
        *armed = false;

        let outcome = match present {
            PresentResult::Presented { suboptimal } => {
                self.state = SwapchainState::Valid;
                Ok(suboptimal)
            },
            PresentResult::OutOfDate => {
                self.state = SwapchainState::OutOfDate;
                Err(SwapchainError::OutOfDate)
            },
            PresentResult::Failure => {
                self.state = SwapchainState::Valid;
                Err(SwapchainError::Failure)
            },
        };
        proof {
            assert(self.in_flight_images@.len() <= u32::MAX);
        }
        let image_index = index as u32;
        self.current_frame = (self.current_frame + 1) % MAX_FRAMES;
        (image_index, outcome)
    }

    /// The same surface and the same extent give the same chain twice:
    /// two chains built from identical surface answers and an identical
    /// requested extent agree on their image count and their format.
    pub proof fn lemma_recreation_idempotent(
        s1: Swapchain,
        s2: Swapchain,
        support: SwapchainSupport,
        depth_props: Seq<FormatProperties>,
        graphics_idx: Option<u32>,
        surface_idx: Option<u32>,
        extent: Extent2D,
    )
        requires
            configured_from(s1, support, depth_props, graphics_idx, surface_idx, extent),
            configured_from(s2, support, depth_props, graphics_idx, surface_idx, extent),
        ensures
            s1.image_count == s2.image_count,
            s1.format == s2.format,
            s1.extent == s2.extent,
    {
    }
}

/// Frame pacing with two slots: after frames zero and one are submitted,
/// the third frame lands back on slot zero, and its acquire leaves slot
/// zero's fence signaled — the CPU has blocked until frame zero's GPU
/// work completed before frame two reuses slot zero's command buffer.
pub proof fn lemma_frame_pacing(
    v0: SyncView,
    i0: int,
    i1: int,
    a0: AcquireResult,
    a1: AcquireResult,
    a2: AcquireResult,
    p0: PresentResult,
    p1: PresentResult,
)
    requires
        v0.fences.len() == MAX_FRAMES,
        v0.frame == 0,
        0 <= i0 < v0.images.len(),
        0 <= i1 < v0.images.len(),
        forall|i: int| 0 <= i < v0.images.len()
            ==> ((#[trigger] v0.images[i]) matches Some(s) ==> s < MAX_FRAMES),
        !(a0 is OutOfDate),
        !(a1 is OutOfDate),
        !(a2 is OutOfDate),
        !(p0 is OutOfDate),
        !(p1 is OutOfDate),
    ensures
        ({
            let v1 = submit_sync(acquire_sync(v0, a0), i0, p0);
            let v2 = submit_sync(acquire_sync(v1, a1), i1, p1);
            let v3 = acquire_sync(v2, a2);
            &&& v2.frame == 0
            &&& v1.frame == 1
            &&& v3.fences[0] == true
            &&& v3.state == SwapchainState::Valid
        }),
{
    let v1 = submit_sync(acquire_sync(v0, a0), i0, p0);
    let v2 = submit_sync(acquire_sync(v1, a1), i1, p1);
    let v3 = acquire_sync(v2, a2);
    assert(v1.frame == 1);
    assert(v2.frame == 0);
    assert(v1.fences.len() == MAX_FRAMES);
    assert(v2.fences.len() == MAX_FRAMES);
    assert(v3.fences == v2.fences.update(0, true));
    assert(v3.fences[0] == true);
}

/// Presentable-image safety: when the image submitted to was last used
/// by a frame slot whose fence is still pending, the submit waits that
/// fence out — after the submit, the previous user's fence is signaled,
/// so two in-flight frames never write the same presentable image.
pub proof fn lemma_image_reuse_waits(
    v: SyncView,
    index: int,
    s: usize,
    present: PresentResult,
)
    requires
        v.fences.len() == MAX_FRAMES,
        v.frame < MAX_FRAMES,
        0 <= index < v.images.len(),
        v.images[index] == Some(s),
        s < MAX_FRAMES,
        !v.fences[s as int],
        v.fences[v.frame as int],
    ensures
        submit_sync(v, index, present).fences[s as int] == true,
        s != v.frame,
{
}

} // verus!
