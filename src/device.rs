use vstd::prelude::*;
use crate::native::{native_flag, NativeCall};

verus! {

/// An owned native device, the allocation factory for surfaces and buffer
/// objects.
///
/// The device does not own the file descriptor it was opened on: the caller
/// keeps it open while the device lives and closes it afterwards.
#[derive(Debug)]
pub struct Device {
    ptr: usize,
    fd: i32,
}

/// A non-owning view of a native device, such as the device that a buffer
/// object was allocated from. It can never destroy the device it observes.
#[derive(Clone, Copy, Debug)]
pub struct DeviceRef {
    ptr: usize,
}

impl Device {
    /// Address of the native device.
    pub closed spec fn handle(&self) -> usize {
        self.ptr
    }

    /// The descriptor that the device was opened on.
    pub closed spec fn descriptor(&self) -> i32 {
        self.fd
    }

    /// The device that opening `fd` gives when the native layer answered
    /// `native`: none for a null handle.
    pub closed spec fn opened(fd: i32, native: usize) -> Option<Device> {
        if native == 0 {
            None
        } else {
            Some(Device { ptr: native, fd })
        }
    }

    /// The native call that disposing of the device makes.
    pub open spec fn disposal(&self) -> NativeCall {
        NativeCall::DestroyDevice { device: self.handle() }
    }

    /// Wraps the device that `gbm_create_device(fd)` returned as `native`.
    ///
    /// A null handle means that the device could not be created; the reason
    /// is in the native layer's last error code. On success the device owns
    /// the native handle.
    pub fn from_fd(fd: i32, native: usize) -> (r: Option<Device>)
        ensures
            r == Device::opened(fd, native),
            r is None <==> native == 0,
            r matches Some(d) ==> d.handle() == native && d.descriptor() == fd,
    {
        if native == 0 {
            None
        } else {
            Some(Device { ptr: native, fd })
        }
    }

    /// Whether the format is supported for the usages asked, from the
    /// native answer `native` of `gbm_device_is_format_supported`.
    pub fn is_format_supported(&self, native: i32) -> (r: bool)
        ensures
            r == (native != 0),
    {
        native_flag(native)
    }

    /// Returns the file descriptor that the device was created with, exactly
    /// as it was passed in.
    pub fn fd(&self) -> (r: i32)
        ensures
            r == self.descriptor(),
    {
        self.fd
    }

    /// Returns the address of the native device.
    pub fn c_struct(&self) -> (r: usize)
        ensures
            r == self.handle(),
    {
        self.ptr
    }

    /// Gives up the device and returns the one native call that destroys it.
    pub fn dispose(self) -> (r: NativeCall)
        ensures
            r == self.disposal(),
    {
        NativeCall::DestroyDevice { device: self.ptr }
    }
}

impl DeviceRef {
    /// Address of the observed native device.
    pub closed spec fn handle(&self) -> usize {
        self.ptr
    }

    /// A view of the native device at `native`.
    pub(crate) fn observe(native: usize) -> (r: DeviceRef)
        ensures
            r.handle() == native,
    {
        DeviceRef { ptr: native }
    }

    /// Returns the address of the observed native device.
    pub fn c_struct(&self) -> (r: usize)
        ensures
            r == self.handle(),
    {
        self.ptr
    }
}

/// Opening a device on a non-null native handle always succeeds, and the
/// device reports back exactly the descriptor it was opened on.
pub proof fn lemma_fd_round_trip(fd: i32, native: usize)
    requires
        native != 0,
    ensures
        Device::opened(fd, native) is Some,
        Device::opened(fd, native).unwrap().descriptor() == fd,
        Device::opened(fd, native).unwrap().handle() == native,
{
}

} // verus!
