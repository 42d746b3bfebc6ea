//! Plain-value encodings of the graphics API's flag bits and enumerated
//! constants that the core's decisions are made over.  The unverified shell
//! converts these to and from the driver's own types; the numeric values
//! match the API's registry so that the conversion is the identity on the
//! raw representation.

use vstd::prelude::*;

verus! {

/// Queue capability bit: the family can execute graphics commands.
pub const QUEUE_GRAPHICS: u32 = 0x1;
/// Queue capability bit: the family can execute compute commands.
pub const QUEUE_COMPUTE: u32 = 0x2;
/// Queue capability bit: the family can execute transfer commands.
pub const QUEUE_TRANSFER: u32 = 0x4;

/// Memory property bit: memory local to the device.
pub const MEMORY_DEVICE_LOCAL: u32 = 0x1;
/// Memory property bit: memory the host can map.
pub const MEMORY_HOST_VISIBLE: u32 = 0x2;
/// Memory property bit: host writes need no explicit flush.
pub const MEMORY_HOST_COHERENT: u32 = 0x4;

/// Command pool creation bit: command buffers are short-lived.
pub const POOL_TRANSIENT: u32 = 0x1;
/// Command pool creation bit: command buffers reset individually.
pub const POOL_RESET_COMMAND_BUFFER: u32 = 0x2;

/// Buffer usage bit: source of a transfer command.
pub const BUFFER_USAGE_TRANSFER_SRC: u32 = 0x1;
/// Buffer usage bit: destination of a transfer command.
pub const BUFFER_USAGE_TRANSFER_DST: u32 = 0x2;
/// Buffer usage bit: vertex buffer.
pub const BUFFER_USAGE_VERTEX: u32 = 0x80;
/// Buffer usage bit: index buffer.
pub const BUFFER_USAGE_INDEX: u32 = 0x40;

/// Image usage bit: destination of a transfer command.
pub const IMAGE_USAGE_TRANSFER_DST: u32 = 0x2;
/// Image usage bit: sampled in shaders.
pub const IMAGE_USAGE_SAMPLED: u32 = 0x4;
/// Image usage bit: colour attachment.
pub const IMAGE_USAGE_COLOR_ATTACHMENT: u32 = 0x10;
/// Image usage bit: depth/stencil attachment.
pub const IMAGE_USAGE_DEPTH_STENCIL_ATTACHMENT: u32 = 0x20;

/// Access bit set that grants nothing.
pub const ACCESS_NONE: u32 = 0x0;
/// Access bit: transfer writes.
pub const ACCESS_TRANSFER_WRITE: u32 = 0x1000;
/// Access bit: shader reads.
pub const ACCESS_SHADER_READ: u32 = 0x20;
/// Access bit: colour attachment writes.
pub const ACCESS_COLOR_ATTACHMENT_WRITE: u32 = 0x100;
/// Access bit: depth/stencil attachment writes.
pub const ACCESS_DEPTH_STENCIL_ATTACHMENT_WRITE: u32 = 0x400;

/// Pipeline stage bit: top of pipe.
pub const STAGE_TOP_OF_PIPE: u32 = 0x1;
/// Pipeline stage bit: transfer operations.
pub const STAGE_TRANSFER: u32 = 0x1000;
/// Pipeline stage bit: fragment shading.
pub const STAGE_FRAGMENT_SHADER: u32 = 0x80;
/// Pipeline stage bit: colour attachment output.
pub const STAGE_COLOR_ATTACHMENT_OUTPUT: u32 = 0x400;
/// Pipeline stage bit: early fragment tests.
pub const STAGE_EARLY_FRAGMENT_TESTS: u32 = 0x100;

/// Format code: 8-bit BGRA, sRGB encoded.
pub const FORMAT_B8G8R8A8_SRGB: u32 = 50;
/// Format code: 8-bit RGBA, sRGB encoded.
pub const FORMAT_R8G8B8A8_SRGB: u32 = 43;
/// Format code: 32-bit float depth.
pub const FORMAT_D32_SFLOAT: u32 = 126;
/// Format code: 32-bit float depth with 8-bit stencil.
pub const FORMAT_D32_SFLOAT_S8_UINT: u32 = 130;
/// Format code: 24-bit depth with 8-bit stencil.
pub const FORMAT_D24_UNORM_S8_UINT: u32 = 129;

/// Colour space code: non-linear sRGB.
pub const COLOR_SPACE_SRGB_NONLINEAR: u32 = 0;

/// Present mode code: queued frames replace the waiting one.
pub const PRESENT_MODE_MAILBOX: u32 = 1;
/// Present mode code: strict first-in first-out queue.
pub const PRESENT_MODE_FIFO: u32 = 2;

/// Image tiling code: driver-chosen optimal layout.
pub const TILING_OPTIMAL: u32 = 0;
/// Image tiling code: row-major linear layout.
pub const TILING_LINEAR: u32 = 1;

/// Format feature bit: usable as a depth/stencil attachment.
pub const FORMAT_FEATURE_DEPTH_STENCIL_ATTACHMENT: u32 = 0x200;

/// Whether every bit of `want` is set in `have`.
pub open spec fn has_bits(have: u32, want: u32) -> bool {
    have & want == want
}

/// Exec twin of [`has_bits`].
pub fn contains_bits(have: u32, want: u32) -> (r: bool)
    ensures
        r == has_bits(have, want),
{
    have & want == want
}

} // verus!
