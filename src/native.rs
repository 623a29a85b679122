use vstd::prelude::*;

verus! {

/// A native call that ends the life of a handle, or hands it back to its
/// owner. Handles are the addresses of the native structures.
#[derive(PartialEq, Eq, Structural, Clone, Copy, Debug)]
pub enum NativeCall {
    /// `gbm_device_destroy(device)`
    DestroyDevice { device: usize },
    /// `gbm_surface_destroy(surface)`
    DestroySurface { surface: usize },
    /// `gbm_bo_destroy(bo)`
    DestroyBuffer { bo: usize },
    /// `gbm_surface_release_buffer(surface, bo)`
    ReleaseBuffer { surface: usize, bo: usize },
}

impl NativeCall {
    /// Whether the call destroys a native object.
    pub open spec fn is_destroy(self) -> bool {
        !(self is ReleaseBuffer)
    }

    /// Whether the call destroys the buffer object `bo`.
    pub open spec fn destroys_buffer(self, bo: usize) -> bool {
        self == (NativeCall::DestroyBuffer { bo })
    }
}

/// Interprets a native integer flag: any value other than zero is true.
pub(crate) fn native_flag(reply: i32) -> (r: bool)
    ensures
        r == (reply != 0),
{
    reply != 0
}

} // verus!
