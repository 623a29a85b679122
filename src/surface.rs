use vstd::prelude::*;
use crate::buffer::{BufferObject, Provenance};
use crate::native::{native_flag, NativeCall};

verus! {

/// An owned native surface: a sequence of presentable buffers driven by an
/// external rendering API's swap cycle.
///
/// After each completed swap, the front buffer may be locked once; every
/// locked buffer goes back to the surface by release. Locking out of turn is
/// an error that the native layer defines, and disposing of a surface while
/// buffers locked from it are still out is the caller's error.
#[derive(Debug)]
pub struct Surface {
    ptr: usize,
}

impl Surface {
    /// Address of the native surface.
    pub closed spec fn handle(&self) -> usize {
        self.ptr
    }

    /// The native call that disposing of the surface makes.
    pub open spec fn disposal(&self) -> NativeCall {
        NativeCall::DestroySurface { surface: self.handle() }
    }

    /// Whether `bo` is a buffer locked from this surface.
    pub open spec fn lent(&self, bo: BufferObject) -> bool {
        bo.origin() == (Provenance::Borrowed { surface: self.handle() })
    }

    /// The outcome of handing `bo` back to this surface: the release call
    /// for a buffer locked from it, else the buffer itself, untouched.
    pub open spec fn release_outcome(&self, bo: BufferObject) -> Result<NativeCall, BufferObject> {
        if self.lent(bo) {
            Ok(NativeCall::ReleaseBuffer { surface: self.handle(), bo: bo.handle() })
        } else {
            Err(bo)
        }
    }

    /// Wraps the surface that `gbm_surface_create` returned as `native`.
    ///
    /// A null handle means that the device's backend refused the size,
    /// format or usage. On success the surface owns the native handle.
    pub fn new(native: usize) -> (r: Option<Surface>)
        ensures
            r is None <==> native == 0,
            r matches Some(s) ==> s.handle() == native,
    {
        if native == 0 {
            None
        } else {
            Some(Surface { ptr: native })
        }
    }

    /// Whether the surface has a buffer free for rendering, from the native
    /// answer `native` of `gbm_surface_has_free_buffers`.
    pub fn has_free_buffers(&self, native: i32) -> (r: bool)
        ensures
            r == (native != 0),
    {
        native_flag(native)
    }

    /// Wraps the front buffer that `gbm_surface_lock_front_buffer` returned
    /// as `native`: a buffer object borrowed from this surface, none for a
    /// null handle.
    pub fn lock_front_buffer(&self, native: usize) -> (r: Option<BufferObject>)
        ensures
            r is None <==> native == 0,
            r matches Some(bo) ==> bo.handle() == native && self.lent(bo),
    {
        if native == 0 {
            None
        } else {
            Some(BufferObject::wrap(native, Provenance::Borrowed { surface: self.ptr }))
        }
    }

    /// Hands a locked buffer back to the surface, consuming it, and returns
    /// the release call to make. A buffer that was not locked from this
    /// surface is refused and handed back unchanged.
    pub fn release_buffer(&self, bo: BufferObject) -> (r: Result<NativeCall, BufferObject>)
        ensures
            r == self.release_outcome(bo),
    {
        if bo.provenance() == (Provenance::Borrowed { surface: self.ptr }) {
            Ok(NativeCall::ReleaseBuffer { surface: self.ptr, bo: bo.c_struct() })
        } else {
            Err(bo)
        }
    }

    /// Returns the address of the native surface.
    pub fn c_struct(&self) -> (r: usize)
        ensures
            r == self.handle(),
    {
        self.ptr
    }

    /// Gives up the surface and returns the one native call that destroys it.
    pub fn dispose(self) -> (r: NativeCall)
        ensures
            r == self.disposal(),
    {
        NativeCall::DestroySurface { surface: self.ptr }
    }
}

/// Releasing a buffer locked from a surface makes the release call for it
/// and destroys nothing.
pub proof fn lemma_release_never_destroys(s: Surface, bo: BufferObject)
    requires
        s.lent(bo),
    ensures
        s.release_outcome(bo) == Ok::<NativeCall, BufferObject>(
            NativeCall::ReleaseBuffer { surface: s.handle(), bo: bo.handle() },
        ),
        !s.release_outcome(bo)->Ok_0.is_destroy(),
{
}

} // verus!
