//! Safe ownership handles for a native generic buffer manager (GBM).
//!
//! The native library allocates GPU-backed buffers for display and rendering.
//! This crate decides, for every native handle, who owns it and which native
//! call ends its life. It performs no native call itself: each operation takes
//! what the native layer replied and hands back the native calls that the
//! host must make, as [`NativeCall`] values.
use vstd::prelude::*;

pub mod format;
mod native;
mod device;
mod surface;
mod buffer;

pub use native::NativeCall;
pub use device::{lemma_fd_round_trip, Device, DeviceRef};
pub use surface::{lemma_release_never_destroys, Surface};
pub use buffer::{lemma_disposal_by_provenance, lemma_handle_forms_agree, BufferObject, Provenance};

verus! {

/// Buffer is going to be presented to the screen using an API such as KMS.
pub const USE_SCANOUT: u32 = 1;

/// Buffer is going to be used as cursor.
pub const USE_CURSOR: u32 = 2;

/// Buffer is to be used for rendering, for example as the storage for a
/// color buffer.
pub const USE_RENDERING: u32 = 4;

/// Buffer can be written with the native write call. This is guaranteed to
/// work together with `USE_CURSOR`, but may not work for other combinations.
pub const USE_WRITE: u32 = 8;

} // verus!
