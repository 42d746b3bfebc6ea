//! The per-frame driver around the chain: hand out the frame slot's
//! command buffer only after its fence is waited, track the acquired
//! image index, rebuild the chain when the surface changes, and skip
//! zero-area extents while a window is minimised.

use vstd::prelude::*;
use crate::swapchain::Swapchain;
use crate::swapchain::SwapchainSupport;
use crate::swapchain::SwapchainState;
use crate::swapchain::SwapchainError;
use crate::swapchain::AcquireResult;
use crate::swapchain::PresentResult;
use crate::swapchain::FormatProperties;
use crate::swapchain::Extent2D;
use crate::swapchain::acquire_sync;
use crate::swapchain::submit_sync;
use crate::swapchain::same_config;
use crate::swapchain::configured_from;
use crate::swapchain::depth_candidates;
use crate::swapchain::no_depth_format;
use crate::swapchain::MAX_FRAMES;

verus! {

/// Whether an extent has area: recreation proceeds only on such an
/// extent, and spins re-querying the window while the area is zero.
pub open spec fn extent_ready_spec(e: Extent2D) -> bool {
    e.width > 0 && e.height > 0
}

/// Whether an extent has area; the decision of the recreation loop's
/// re-query spin.
pub fn extent_ready(e: &Extent2D) -> (r: bool)
    ensures
        r == extent_ready_spec(*e),
{
    e.width > 0 && e.height > 0
}

/// The first polled extent with area, if any: the extent the recreation
/// loop proceeds with after a minimise/restore cycle.
pub open spec fn first_valid_extent_spec(polled: Seq<Extent2D>) -> Option<int> {
    if exists|i: int| 0 <= i < polled.len() && extent_ready_spec(#[trigger] polled[i]) {
        Some(choose|i: int| {
            &&& 0 <= i < polled.len()
            &&& extent_ready_spec(#[trigger] polled[i])
            &&& forall|k: int| 0 <= k < i ==> !extent_ready_spec(#[trigger] polled[k])
        })
    } else {
        None
    }
}

/// Scan a polled extent sequence for the first one with area.
pub fn first_valid_extent(polled: &Vec<Extent2D>) -> (r: Option<usize>)
    ensures
        match r {
            Some(i) => {
                &&& i < polled@.len()
                &&& extent_ready_spec(polled@[i as int])
                &&& forall|k: int| 0 <= k < i ==> !extent_ready_spec(#[trigger] polled@[k])
            },
            None => forall|k: int| 0 <= k < polled@.len()
                ==> !extent_ready_spec(#[trigger] polled@[k]),
        },
{
    let mut i: usize = 0;
    while i < polled.len()
        invariant
            i <= polled@.len(),
            forall|k: int| 0 <= k < i ==> !extent_ready_spec(#[trigger] polled@[k]),
        decreases polled@.len() - i,
    {
        if extent_ready(&polled[i]) {
            return Some(i);
        }
        i = i + 1;
    }
    None
}

/// The frame driver: the chain it renders into, one command buffer per
/// frame slot, and the most recently acquired image index.
pub struct Renderer {
    /// The presentable-image chain.
    pub swapchain: Swapchain,
    /// Number of per-slot command buffers allocated.
    pub command_buffer_count: usize,
    /// Index of the most recently acquired presentable image.
    pub image_index: u32,
}

impl Renderer {
    /// Whether the driver's bookkeeping is consistent.
    pub open spec fn wf(&self) -> bool {
        &&& self.swapchain.wf()
        &&& self.command_buffer_count == MAX_FRAMES
    }

    /// A driver over a freshly built chain, with one command buffer per
    /// frame slot.
    pub fn new(swapchain: Swapchain) -> (r: Self)
        requires
            swapchain.wf(),
        ensures
            r.wf(),
            r.swapchain == swapchain,
            r.image_index == 0,
    {
        Self { swapchain, command_buffer_count: MAX_FRAMES, image_index: 0 }
    }

    /// Begin a frame: wait the current slot's fence out, then, when the
    /// platform handed an image over, record its index and hand out the
    /// slot's command buffer — the fence wait makes that buffer safe to
    /// re-record.  An out-of-date answer marks the chain for rebuilding
    /// and is returned for the caller to trigger recreation.
    pub fn begin_command_buffer(&mut self, acquired: AcquireResult) -> (r: Result<
        usize,
        SwapchainError,
    >)
        requires
            old(self).wf(),
            old(self).swapchain.state == SwapchainState::Valid,
        ensures
            final(self).wf(),
            final(self).command_buffer_count == old(self).command_buffer_count,
            same_config(final(self).swapchain, old(self).swapchain),
            final(self).swapchain.sync() == acquire_sync(old(self).swapchain.sync(), acquired),
            match acquired {
                AcquireResult::Image { index, suboptimal: _ } => {
                    &&& r == Ok::<usize, SwapchainError>(old(self).swapchain.current_frame)
                    &&& final(self).image_index == index
                    &&& final(self).swapchain.in_flight_fence@[
                        old(self).swapchain.current_frame as int] == true
                },
                AcquireResult::OutOfDate => {
                    &&& r == Err::<usize, SwapchainError>(SwapchainError::OutOfDate)
                    &&& final(self).swapchain.state == SwapchainState::OutOfDate
                    &&& final(self).image_index == old(self).image_index
                },
                AcquireResult::Failure => {
                    &&& r == Err::<usize, SwapchainError>(SwapchainError::Failure)
                    &&& final(self).image_index == old(self).image_index
                },
            },
    {
        let slot = self.swapchain.current_frame;
        match self.swapchain.next_image(acquired) {
            Ok((index, _suboptimal)) => {
                self.image_index = index;
                Ok(slot)
            },
            Err(e) => Err(e),
        }
    }

    /// Rebuild the chain against a fresh extent and fresh surface
    /// answers, after the device has drained; the new chain starts a
    /// new synchronisation epoch with every slot fence signaled.  The
    /// extent must have area — the caller spins on [`extent_ready`]
    /// first.  Fails exactly when no depth candidate is supported.
    pub fn recreate_swapchain(
        &mut self,
        extent: Extent2D,
        support: &SwapchainSupport,
        depth_props: &Vec<FormatProperties>,
        graphics_idx: Option<u32>,
        surface_idx: Option<u32>,
    ) -> (r: Result<(), SwapchainError>)
        requires
            old(self).wf(),
            extent_ready_spec(extent),
            support.formats@.len() > 0,
            support.capabilities.min_image_count < u32::MAX,
            depth_props@.len() == depth_candidates().len(),
        ensures
            final(self).wf(),
            final(self).command_buffer_count == old(self).command_buffer_count,
            final(self).image_index == old(self).image_index,
            match r {
                Ok(()) => {
                    &&& configured_from(final(self).swapchain, *support, depth_props@,
                        graphics_idx, surface_idx, extent)
                    &&& final(self).swapchain.state == SwapchainState::Valid
                    &&& final(self).swapchain.current_frame == 0
                    &&& forall|i: int| 0 <= i < MAX_FRAMES
                        ==> #[trigger] final(self).swapchain.in_flight_fence@[i] == true
                    &&& forall|i: int| 0 <= i < final(self).swapchain.in_flight_images@.len()
                        ==> #[trigger] final(self).swapchain.in_flight_images@[i] is None
                },
                Err(e) => {
                    &&& e == SwapchainError::NoSupportedFormat
                    &&& no_depth_format(depth_props@)
                    &&& final(self).swapchain == old(self).swapchain
                },
            },
    {
        match Swapchain::new(support, depth_props, graphics_idx, surface_idx, extent) {
            Ok(chain) => {
                self.swapchain = chain;
                Ok(())
            },
            Err(e) => Err(e),
        }
    }

    /// Finish a frame: submit the recorded work for the most recently
    /// acquired image, presenting when the platform allows, and advance
    /// the frame slot.  Returns whether the platform reported the chain
    /// suboptimal — the caller triggers recreation on that too.
    pub fn draw(&mut self, present: PresentResult) -> (r: Result<bool, SwapchainError>)
        requires
            old(self).wf(),
            old(self).swapchain.state == SwapchainState::Valid,
            old(self).image_index < old(self).swapchain.in_flight_images@.len(),
            old(self).swapchain.in_flight_fence@[old(self).swapchain.current_frame as int]
                == true,
        ensures
            final(self).wf(),
            final(self).command_buffer_count == old(self).command_buffer_count,
            same_config(final(self).swapchain, old(self).swapchain),
            final(self).swapchain.sync() == submit_sync(old(self).swapchain.sync(),
                old(self).image_index as int, present),
            final(self).image_index == old(self).image_index,
            match present {
                PresentResult::Presented { suboptimal } => r == Ok::<bool, SwapchainError>(
                    suboptimal,
                ),
                PresentResult::OutOfDate => r == Err::<bool, SwapchainError>(
                    SwapchainError::OutOfDate,
                ),
                PresentResult::Failure => r == Err::<bool, SwapchainError>(
                    SwapchainError::Failure,
                ),
            },
    {
        let (image_index, outcome) = self.swapchain.submit(self.image_index as usize, present);
        self.image_index = image_index;
        outcome
    }
}

/// Resize recovery: when the window shrinks to zero area and back, the
/// recreation loop skips every zero-area extent it polls and proceeds
/// exactly once, at the first extent with area; the chain it then
/// builds is valid and fully determined by that extent and the
/// surface's answers.
pub proof fn lemma_resize_single_recreation(
    polled: Seq<Extent2D>,
    i: int,
    s: Swapchain,
    support: SwapchainSupport,
    depth_props: Seq<FormatProperties>,
    graphics_idx: Option<u32>,
    surface_idx: Option<u32>,
)
    requires
        0 <= i < polled.len(),
        extent_ready_spec(polled[i]),
        forall|k: int| 0 <= k < i ==> !extent_ready_spec(#[trigger] polled[k]),
        configured_from(s, support, depth_props, graphics_idx, surface_idx, polled[i]),
        s.state == SwapchainState::Valid,
    ensures
        first_valid_extent_spec(polled) == Some(i),
        forall|k: int| 0 <= k < i ==> !extent_ready_spec(#[trigger] polled[k]),
        s.extent == crate::swapchain::choose_extent_spec(support.capabilities, polled[i]),
        s.state == SwapchainState::Valid,
{
    assert(exists|j: int| 0 <= j < polled.len() && extent_ready_spec(#[trigger] polled[j]));
    let j = choose|j: int| {
        &&& 0 <= j < polled.len()
        &&& extent_ready_spec(#[trigger] polled[j])
        &&& forall|k: int| 0 <= k < j ==> !extent_ready_spec(#[trigger] polled[k])
    };
    assert(0 <= j < polled.len() && extent_ready_spec(polled[j])
        && (forall|k: int| 0 <= k < j ==> !extent_ready_spec(#[trigger] polled[k]))) by {
        assert({
            &&& 0 <= i < polled.len()
            &&& extent_ready_spec(polled[i])
            &&& forall|k: int| 0 <= k < i ==> !extent_ready_spec(#[trigger] polled[k])
        });
    }
    if j < i {
        assert(!extent_ready_spec(polled[j]));
        assert(false);
    }
    if i < j {
        assert(!extent_ready_spec(polled[i]));
        assert(false);
    }
}

} // verus!
