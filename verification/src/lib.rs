//! Resource-lifecycle core of a real-time graphics engine.
//!
//! The library models the three tightly coupled pieces on which the engine's
//! correctness rests: physical-device and queue selection, the buffer/image
//! memory allocator, and the swapchain with its per-frame synchronisation
//! state machine.  Every decision those pieces make (which device is capable,
//! which memory type satisfies a request, which fence must be waited before a
//! frame slot or a presentable image may be reused) is a verified function
//! over plain values; the thin unverified shell that talks to the graphics
//! driver feeds those values in and carries the answers out.

pub mod batcher;
pub mod buffer;
pub mod device;
pub mod flags;
pub mod image;
pub mod input;
pub mod instance;
pub mod mesh;
pub mod queues;
pub mod renderer;
pub mod swapchain;
