use vstd::prelude::*;
use crate::device::DeviceRef;
use crate::native::NativeCall;

verus! {

/// Where a buffer object came from, which decides who destroys it.
#[derive(PartialEq, Eq, Structural, Clone, Copy, Debug)]
pub enum Provenance {
    /// Allocated on its own from a device: the buffer object owns the native
    /// handle and destroys it on disposal.
    Owned,
    /// The locked front buffer of the surface at address `surface`: the
    /// surface owns the native handle, and the buffer goes back to it by
    /// release, never by destruction.
    Borrowed { surface: usize },
}

/// A native buffer object: a single memory region with a width, height,
/// stride and pixel format.
#[derive(Debug)]
pub struct BufferObject {
    ptr: usize,
    provenance: Provenance,
}

impl BufferObject {
    /// Address of the native buffer object.
    pub closed spec fn handle(&self) -> usize {
        self.ptr
    }

    /// Where the buffer object came from.
    pub closed spec fn origin(&self) -> Provenance {
        self.provenance
    }

    /// The native call that disposing of the buffer object makes, if any.
    pub open spec fn disposal(&self) -> Option<NativeCall> {
        match self.origin() {
            Provenance::Owned => Some(NativeCall::DestroyBuffer { bo: self.handle() }),
            Provenance::Borrowed { .. } => None,
        }
    }

    /// Wraps a non-null native buffer object of the given provenance.
    pub(crate) fn wrap(native: usize, provenance: Provenance) -> (r: BufferObject)
        ensures
            r.handle() == native,
            r.origin() == provenance,
    {
        BufferObject { ptr: native, provenance }
    }

    /// Wraps the buffer object that `gbm_bo_create` returned as `native`.
    ///
    /// A null handle means that the allocation failed; the reason is in the
    /// native layer's last error code. On success the buffer object owns the
    /// native handle.
    pub fn new(native: usize) -> (r: Option<BufferObject>)
        ensures
            r is None <==> native == 0,
            r matches Some(bo) ==> bo.handle() == native && bo.origin() == Provenance::Owned,
    {
        if native == 0 {
            None
        } else {
            Some(BufferObject::wrap(native, Provenance::Owned))
        }
    }

    /// Returns where the buffer object came from.
    pub fn provenance(&self) -> (r: Provenance)
        ensures
            r == self.origin(),
    {
        self.provenance
    }

    /// A non-owning view of the device that the buffer object was created
    /// with, at the address `native` that `gbm_bo_get_device` returned.
    pub fn device(&self, native: usize) -> (r: DeviceRef)
        ensures
            r.handle() == native,
    {
        DeviceRef::observe(native)
    }

    /// The platform handle `native` (from `gbm_bo_get_handle`) as a `u32`:
    /// its low 32 bits.
    pub fn handle_u32(&self, native: u64) -> (r: u32)
        ensures
            r == native as u32,
    {
        native as u32
    }

    /// The platform handle `native` (from `gbm_bo_get_handle`) as a `u64`.
    pub fn handle_u64(&self, native: u64) -> (r: u64)
        ensures
            r == native,
    {
        native
    }

    /// The platform handle `native` (from `gbm_bo_get_handle`) as an `i32`:
    /// its low 32 bits, read as two's complement.
    pub fn handle_i32(&self, native: u64) -> (r: i32)
        ensures
            r == native as i32,
    {
        native as i32
    }

    /// The platform handle `native` (from `gbm_bo_get_handle`) as an `i64`:
    /// its 64 bits, read as two's complement.
    pub fn handle_i64(&self, native: u64) -> (r: i64)
        ensures
            r == native as i64,
    {
        native as i64
    }

    /// Whether a write of raw bytes into the buffer succeeded, from the
    /// status `native` that `gbm_bo_write` returned. On failure the reason
    /// stays in the native layer's last error code.
    pub fn write(&self, native: i32) -> (r: bool)
        ensures
            r == (native == 0),
    {
        native == 0
    }

    /// Returns the address of the native buffer object.
    pub fn c_struct(&self) -> (r: usize)
        ensures
            r == self.handle(),
    {
        self.ptr
    }

    /// Gives up the buffer object and returns the native call that ends it:
    /// a destroy for an owned buffer, none for a buffer borrowed from a
    /// surface.
    pub fn dispose(self) -> (r: Option<NativeCall>)
        ensures
            r == self.disposal(),
    {
        match self.provenance {
            Provenance::Owned => Some(NativeCall::DestroyBuffer { bo: self.ptr }),
            Provenance::Borrowed { .. } => None,
        }
    }
}

/// Disposing of an owned buffer object destroys its native handle exactly
/// once; disposing of a borrowed one makes no native call at all.
pub proof fn lemma_disposal_by_provenance(bo: BufferObject)
    ensures
        bo.origin() is Owned ==> bo.disposal() == Some(NativeCall::DestroyBuffer { bo: bo.handle() }),
        bo.origin() is Borrowed ==> bo.disposal() is None,
        bo.disposal() matches Some(c) ==> c.is_destroy() && c.destroys_buffer(bo.handle()),
{
}

/// The integer forms of a platform handle all carry the same bits: the 32-bit
/// forms agree with each other and with the low half of the 64-bit forms.
pub proof fn lemma_handle_forms_agree(native: u64)
    ensures
        (native as i32) as u32 == native as u32,
        (native as i64) as u64 == native,
        (native as i64) as u32 == native as u32,
{
    assert((native as i32) as u32 == native as u32) by (bit_vector);
    assert((native as i64) as u64 == native) by (bit_vector);
    assert((native as i64) as u32 == native as u32) by (bit_vector);
}

} // verus!
