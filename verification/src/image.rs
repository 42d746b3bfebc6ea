//! Image upload path: the staging-buffer plan, the two supported layout
//! transitions with their access/stage mask pairs, and the copy region
//! for moving staged pixels into the image.

use vstd::prelude::*;
use crate::flags::ACCESS_NONE;
use crate::flags::ACCESS_TRANSFER_WRITE;
use crate::flags::ACCESS_SHADER_READ;
use crate::flags::STAGE_TOP_OF_PIPE;
use crate::flags::STAGE_TRANSFER;
use crate::flags::STAGE_FRAGMENT_SHADER;
use crate::flags::FORMAT_R8G8B8A8_SRGB;
use crate::flags::BUFFER_USAGE_TRANSFER_SRC;
use crate::flags::MEMORY_HOST_VISIBLE;
use crate::flags::MEMORY_HOST_COHERENT;
use crate::flags::IMAGE_USAGE_TRANSFER_DST;
use crate::flags::IMAGE_USAGE_SAMPLED;

verus! {

/// The image layouts the upload path speaks of.
#[derive(Clone, Copy, PartialEq, Eq, Structural, Debug)]
pub enum ImageLayout {
    /// Contents undefined; the initial layout of a fresh image.
    Undefined,
    /// Optimal as the destination of a transfer.
    TransferDstOptimal,
    /// Optimal for sampling from shaders.
    ShaderReadOnlyOptimal,
    /// Optimal as a colour attachment.
    ColorAttachmentOptimal,
    /// Optimal as a depth/stencil attachment.
    DepthStencilAttachmentOptimal,
    /// Ready for presentation to the surface.
    PresentSrc,
    /// The fully general layout.
    General,
}

/// The access-mask/stage-mask pairs a pipeline barrier is built from.
#[derive(Clone, Copy, PartialEq, Eq, Structural, Debug)]
pub struct TransitionMasks {
    /// Accesses that must have completed before the transition.
    pub src_access_mask: u32,
    /// Accesses that wait for the transition.
    pub dst_access_mask: u32,
    /// Pipeline stages the transition waits on.
    pub src_stage_mask: u32,
    /// Pipeline stages that wait for the transition.
    pub dst_stage_mask: u32,
}

/// Why an image operation was rejected.
#[derive(Clone, Copy, PartialEq, Eq, Structural, Debug)]
pub enum TextureError {
    /// The requested layout transition is not one of the two the upload
    /// path supports.
    UnsupportedTransition,
}

/// The two supported transitions: fresh image to transfer destination,
/// and transfer destination to shader-readable.
pub open spec fn transition_supported(old_layout: ImageLayout, new_layout: ImageLayout) -> bool {
    ||| (old_layout == ImageLayout::Undefined && new_layout == ImageLayout::TransferDstOptimal)
    ||| (old_layout == ImageLayout::TransferDstOptimal
        && new_layout == ImageLayout::ShaderReadOnlyOptimal)
}

/// The mask pair for the first supported transition.
pub open spec fn undefined_to_transfer_dst_masks() -> TransitionMasks {
    TransitionMasks {
        src_access_mask: ACCESS_NONE,
        dst_access_mask: ACCESS_TRANSFER_WRITE,
        src_stage_mask: STAGE_TOP_OF_PIPE,
        dst_stage_mask: STAGE_TRANSFER,
    }
}

/// The mask pair for the second supported transition.
pub open spec fn transfer_dst_to_shader_read_masks() -> TransitionMasks {
    TransitionMasks {
        src_access_mask: ACCESS_TRANSFER_WRITE,
        dst_access_mask: ACCESS_SHADER_READ,
        src_stage_mask: STAGE_TRANSFER,
        dst_stage_mask: STAGE_FRAGMENT_SHADER,
    }
}

/// The mask pair a supported transition's barrier carries.
pub open spec fn transition_masks_spec(old_layout: ImageLayout, new_layout: ImageLayout) -> TransitionMasks {
    if old_layout == ImageLayout::Undefined && new_layout == ImageLayout::TransferDstOptimal {
        undefined_to_transfer_dst_masks()
    } else {
        transfer_dst_to_shader_read_masks()
    }
}

/// One region of a buffer-to-image copy; the upload path always copies
/// the full extent of mip level zero, single layer, colour aspect.
#[derive(Clone, Copy, PartialEq, Eq, Structural, Debug)]
pub struct CopyRegion {
    /// Byte offset into the staging buffer.
    pub buffer_offset: u64,
    /// Row stride override; zero means tightly packed.
    pub buffer_row_length: u32,
    /// Image-height override; zero means tightly packed.
    pub buffer_image_height: u32,
    /// Mip level written.
    pub mip_level: u32,
    /// First array layer written.
    pub base_array_layer: u32,
    /// Number of array layers written.
    pub layer_count: u32,
    /// Width of the copied extent, in pixels.
    pub width: u32,
    /// Height of the copied extent, in pixels.
    pub height: u32,
    /// Depth of the copied extent.
    pub depth: u32,
}

/// The copy region for uploading a full two-dimensional image.
pub open spec fn copy_region_spec(width: u32, height: u32) -> CopyRegion {
    CopyRegion {
        buffer_offset: 0,
        buffer_row_length: 0,
        buffer_image_height: 0,
        mip_level: 0,
        base_array_layer: 0,
        layer_count: 1,
        width,
        height,
        depth: 1,
    }
}

/// A sampled two-dimensional texture: its pixel extent and format.  The
/// driver-side image, view, sampler and memory are created by the
/// unverified shell following the [`UploadPlan`].
pub struct ImageTexture {
    /// Width of the texture, in pixels.
    pub width: u32,
    /// Height of the texture, in pixels.
    pub height: u32,
    /// Format code of the texture.
    pub format: u32,
}

/// Everything the upload of decoded pixels needs: the staging buffer's
/// size, usage and memory properties, the image's format and usage, the
/// two layout transitions bracketing the copy, and the copy region.
pub struct UploadPlan {
    /// Byte size of the staging buffer: four bytes per pixel.
    pub staging_size: usize,
    /// Usage bits of the staging buffer.
    pub staging_usage: u32,
    /// Memory property bits of the staging buffer.
    pub staging_properties: u32,
    /// Format code of the image.
    pub format: u32,
    /// Usage bits of the image.
    pub image_usage: u32,
    /// Masks of the transition into the transfer-destination layout.
    pub first_transition: TransitionMasks,
    /// Masks of the transition into the shader-readable layout.
    pub second_transition: TransitionMasks,
    /// Region of the staged copy.
    pub copy: CopyRegion,
}

impl ImageTexture {
    /// The access and stage masks for a layout transition; only the two
    /// transitions of the upload path are supported, and any other pair
    /// is rejected as an unsupported transition.
    pub fn transition(old_layout: ImageLayout, new_layout: ImageLayout) -> (r: Result<
        TransitionMasks,
        TextureError,
    >)
        ensures
            match r {
                Ok(m) => transition_supported(old_layout, new_layout)
                    && m == transition_masks_spec(old_layout, new_layout),
                Err(e) => !transition_supported(old_layout, new_layout)
                    && e == TextureError::UnsupportedTransition,
            },
    {
        if old_layout == ImageLayout::Undefined && new_layout == ImageLayout::TransferDstOptimal {
            Ok(TransitionMasks {
                src_access_mask: ACCESS_NONE,
                dst_access_mask: ACCESS_TRANSFER_WRITE,
                src_stage_mask: STAGE_TOP_OF_PIPE,
                dst_stage_mask: STAGE_TRANSFER,
            })
        } else if old_layout == ImageLayout::TransferDstOptimal
            && new_layout == ImageLayout::ShaderReadOnlyOptimal {
            Ok(TransitionMasks {
                src_access_mask: ACCESS_TRANSFER_WRITE,
                dst_access_mask: ACCESS_SHADER_READ,
                src_stage_mask: STAGE_TRANSFER,
                dst_stage_mask: STAGE_FRAGMENT_SHADER,
            })
        } else {
            Err(TextureError::UnsupportedTransition)
        }
    }

    /// Build a texture of a decoded pixel source and the plan for
    /// uploading it: a host-visible, host-coherent staging buffer of four
    /// bytes per pixel, a device-local sRGB image usable as transfer
    /// destination and sampled texture, the two supported transitions in
    /// order, and a full-extent copy.
    pub fn new(width: u32, height: u32) -> (r: (Self, UploadPlan))
        requires
            width * height * 4 <= u32::MAX,
        ensures
            r.0 == (ImageTexture { width, height, format: FORMAT_R8G8B8A8_SRGB }),
            r.1.staging_size == width * height * 4,
            r.1.staging_usage == BUFFER_USAGE_TRANSFER_SRC,
            r.1.staging_properties == MEMORY_HOST_VISIBLE | MEMORY_HOST_COHERENT,
            r.1.format == FORMAT_R8G8B8A8_SRGB,
            r.1.image_usage == IMAGE_USAGE_TRANSFER_DST | IMAGE_USAGE_SAMPLED,
            r.1.first_transition == undefined_to_transfer_dst_masks(),
            transition_supported(ImageLayout::Undefined, ImageLayout::TransferDstOptimal),
            r.1.second_transition == transfer_dst_to_shader_read_masks(),
            transition_supported(
                ImageLayout::TransferDstOptimal,
                ImageLayout::ShaderReadOnlyOptimal,
            ),
            r.1.copy == copy_region_spec(width, height),
    {
        let size: u32 = width * height * 4;
        let plan = UploadPlan {
            staging_size: size as usize,
            staging_usage: BUFFER_USAGE_TRANSFER_SRC,
            staging_properties: MEMORY_HOST_VISIBLE | MEMORY_HOST_COHERENT,
            format: FORMAT_R8G8B8A8_SRGB,
            image_usage: IMAGE_USAGE_TRANSFER_DST | IMAGE_USAGE_SAMPLED,
            first_transition: TransitionMasks {
                src_access_mask: ACCESS_NONE,
                dst_access_mask: ACCESS_TRANSFER_WRITE,
                src_stage_mask: STAGE_TOP_OF_PIPE,
                dst_stage_mask: STAGE_TRANSFER,
            },
            second_transition: TransitionMasks {
                src_access_mask: ACCESS_TRANSFER_WRITE,
                dst_access_mask: ACCESS_SHADER_READ,
                src_stage_mask: STAGE_TRANSFER,
                dst_stage_mask: STAGE_FRAGMENT_SHADER,
            },
            copy: CopyRegion {
                buffer_offset: 0,
                buffer_row_length: 0,
                buffer_image_height: 0,
                mip_level: 0,
                base_array_layer: 0,
                layer_count: 1,
                width,
                height,
                depth: 1,
            },
        };
        (ImageTexture { width, height, format: FORMAT_R8G8B8A8_SRGB }, plan)
    }
}

/// The first supported transition then the second succeed in sequence,
/// and every other layout pair is rejected: the upload path's bracket is
/// exactly (undefined, transfer-destination), (transfer-destination,
/// shader-readable).
pub proof fn lemma_upload_transitions(old_layout: ImageLayout, new_layout: ImageLayout)
    ensures
        transition_supported(ImageLayout::Undefined, ImageLayout::TransferDstOptimal),
        transition_supported(ImageLayout::TransferDstOptimal, ImageLayout::ShaderReadOnlyOptimal),
        transition_supported(old_layout, new_layout)
            ==> (old_layout == ImageLayout::Undefined && new_layout == ImageLayout::TransferDstOptimal)
                || (old_layout == ImageLayout::TransferDstOptimal
                    && new_layout == ImageLayout::ShaderReadOnlyOptimal),
{
}

} // verus!
