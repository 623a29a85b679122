use gbm_rs::format::{ARGB8888, NV12, XRGB8888};
use gbm_rs::{BufferObject, Device, NativeCall, Provenance, Surface};
use gbm_rs::{USE_CURSOR, USE_RENDERING, USE_SCANOUT, USE_WRITE};

/// A stand-in for the native buffer manager: it hands out the handles it is
/// told to and records every call that the host makes on the library's word.
struct MockNative {
    calls: Vec<NativeCall>,
    geometry: Vec<(usize, u32, u32)>,
}

impl MockNative {
    fn new() -> MockNative {
        MockNative { calls: Vec::new(), geometry: Vec::new() }
    }

    /// `gbm_surface_create` as the mock sees it: the buffers locked from the
    /// surface later have its size.
    fn create_surface(&mut self, handle: usize, front: usize, width: u32, height: u32) -> usize {
        self.geometry.push((handle, width, height));
        self.geometry.push((front, width, height));
        handle
    }

    fn width_of(&self, handle: usize) -> u32 {
        self.geometry.iter().find(|g| g.0 == handle).unwrap().1
    }

    fn height_of(&self, handle: usize) -> u32 {
        self.geometry.iter().find(|g| g.0 == handle).unwrap().2
    }

    fn perform(&mut self, call: NativeCall) {
        self.calls.push(call);
    }

    fn perform_all(&mut self, calls: Option<NativeCall>) {
        if let Some(c) = calls {
            self.perform(c);
        }
    }

    fn destroys_of(&self, handle: usize) -> usize {
        self.calls
            .iter()
            .filter(|c| match **c {
                NativeCall::DestroyDevice { device } => device == handle,
                NativeCall::DestroySurface { surface } => surface == handle,
                NativeCall::DestroyBuffer { bo } => bo == handle,
                NativeCall::ReleaseBuffer { .. } => false,
            })
            .count()
    }

    fn destroys(&self) -> usize {
        self.calls
            .iter()
            .filter(|c| !matches!(c, NativeCall::ReleaseBuffer { .. }))
            .count()
    }

    fn releases_of(&self, handle: usize) -> usize {
        self.calls
            .iter()
            .filter(|c| matches!(c, NativeCall::ReleaseBuffer { bo, .. } if *bo == handle))
            .count()
    }

    /// `gbm_bo_write` as the mock sees it: a buffer allocated for writing
    /// takes the bytes, any other fails.
    fn write_status(&self, usage: u32, count: usize, capacity: usize) -> i32 {
        if usage & USE_WRITE != 0 && count <= capacity {
            0
        } else {
            -1
        }
    }
}

const H1: usize = 0x1000;
const S1: usize = 0x2000;
const B1: usize = 0x3000;

#[test]
fn device_reports_the_descriptor_it_was_opened_on() {
    for fd in [0, 3, 7, 42, i32::MAX] {
        let dev = Device::from_fd(fd, H1).unwrap();
        assert_eq!(dev.fd(), fd);
        assert_eq!(dev.c_struct(), H1);
    }
}

#[test]
fn device_creation_fails_on_null_and_nothing_is_destroyed() {
    let mut native = MockNative::new();
    let dev = Device::from_fd(7, 0);
    assert!(dev.is_none());
    if let Some(d) = dev {
        native.perform(d.dispose());
    }
    assert!(native.calls.is_empty());
}

#[test]
fn creation_succeeds_exactly_on_non_null_handles() {
    assert!(Surface::new(0).is_none());
    assert!(BufferObject::new(0).is_none());
    let s = Surface::new(S1).unwrap();
    assert_eq!(s.c_struct(), S1);
    let bo = BufferObject::new(B1).unwrap();
    assert_eq!(bo.c_struct(), B1);
    assert_eq!(bo.provenance(), Provenance::Owned);
}

#[test]
fn owned_buffer_is_destroyed_exactly_once() {
    let mut native = MockNative::new();
    let bo = BufferObject::new(B1).unwrap();
    native.perform_all(bo.dispose());
    assert_eq!(native.destroys_of(B1), 1);
    assert_eq!(native.calls, vec![NativeCall::DestroyBuffer { bo: B1 }]);
}

#[test]
fn borrowed_buffer_is_never_destroyed() {
    let mut native = MockNative::new();
    let s = Surface::new(S1).unwrap();
    let bo = s.lock_front_buffer(B1).unwrap();
    assert_eq!(bo.provenance(), Provenance::Borrowed { surface: S1 });
    native.perform_all(bo.dispose());
    assert_eq!(native.destroys_of(B1), 0);
    assert!(native.calls.is_empty());
}

#[test]
fn release_returns_the_buffer_without_destroying_it() {
    let mut native = MockNative::new();
    let s = Surface::new(S1).unwrap();
    let bo = s.lock_front_buffer(B1).unwrap();
    let call = s.release_buffer(bo).unwrap();
    assert_eq!(call, NativeCall::ReleaseBuffer { surface: S1, bo: B1 });
    native.perform(call);
    assert_eq!(native.releases_of(B1), 1);
    assert_eq!(native.destroys(), 0);
}

#[test]
fn release_refuses_an_owned_buffer() {
    let s = Surface::new(S1).unwrap();
    let bo = BufferObject::new(B1).unwrap();
    let back = s.release_buffer(bo).unwrap_err();
    assert_eq!(back.c_struct(), B1);
    assert_eq!(back.dispose(), Some(NativeCall::DestroyBuffer { bo: B1 }));
}

#[test]
fn release_refuses_a_buffer_of_another_surface() {
    let s = Surface::new(S1).unwrap();
    let other = Surface::new(S1 + 0x100).unwrap();
    let bo = other.lock_front_buffer(B1).unwrap();
    let back = s.release_buffer(bo).unwrap_err();
    assert_eq!(back.provenance(), Provenance::Borrowed { surface: S1 + 0x100 });
    assert!(other.release_buffer(back).is_ok());
}

#[test]
fn outstanding_locks_are_released_one_by_one() {
    let mut native = MockNative::new();
    let s = Surface::new(S1).unwrap();
    let first = s.lock_front_buffer(B1).unwrap();
    let second = s.lock_front_buffer(B1 + 0x10).unwrap();
    native.perform(s.release_buffer(second).unwrap());
    native.perform(s.release_buffer(first).unwrap());
    assert_eq!(native.releases_of(B1), 1);
    assert_eq!(native.releases_of(B1 + 0x10), 1);
    assert_eq!(native.destroys(), 0);
}

#[test]
fn failed_lock_gives_no_buffer() {
    let s = Surface::new(S1).unwrap();
    assert!(s.lock_front_buffer(0).is_none());
}

#[test]
fn format_query_is_total() {
    let dev = Device::from_fd(3, H1).unwrap();
    assert!(!dev.is_format_supported(0));
    assert!(dev.is_format_supported(1));
    assert!(dev.is_format_supported(-1));
    let mut x: u32 = 0x2545_f491;
    for _ in 0..1000 {
        x ^= x << 13;
        x ^= x >> 17;
        x ^= x << 5;
        let reply = x as i32;
        assert_eq!(dev.is_format_supported(reply), reply != 0);
    }
}

#[test]
fn free_buffers_follow_the_native_answer() {
    let s = Surface::new(S1).unwrap();
    assert!(s.has_free_buffers(1));
    assert!(!s.has_free_buffers(0));
}

#[test]
fn write_succeeds_on_a_writable_buffer() {
    let native = MockNative::new();
    let bo = BufferObject::new(B1).unwrap();
    let (stride, height) = (256usize, 64usize);
    let status = native.write_status(USE_CURSOR | USE_WRITE, stride * height, stride * height);
    assert!(bo.write(status));
}

#[test]
fn write_fails_on_a_buffer_without_write_usage() {
    let native = MockNative::new();
    let bo = BufferObject::new(B1).unwrap();
    let status = native.write_status(USE_SCANOUT, 1024, 1024);
    assert_eq!(status, -1);
    assert!(!bo.write(status));
}

#[test]
fn handle_forms_share_one_bit_pattern() {
    let bo = BufferObject::new(B1).unwrap();
    let raw: u64 = 0xffff_ffff_0000_0002;
    assert_eq!(bo.handle_u64(raw), raw);
    assert_eq!(bo.handle_u32(raw), 2);
    assert_eq!(bo.handle_i32(raw), 2);
    assert_eq!(bo.handle_i64(raw), -4294967294);
    let all_ones: u64 = u64::MAX;
    assert_eq!(bo.handle_u32(all_ones), u32::MAX);
    assert_eq!(bo.handle_i32(all_ones), -1);
    assert_eq!(bo.handle_i64(all_ones), -1);
}

#[test]
fn buffer_device_is_a_view() {
    let bo = BufferObject::new(B1).unwrap();
    let view = bo.device(H1);
    assert_eq!(view.c_struct(), H1);
    assert_eq!(bo.dispose(), Some(NativeCall::DestroyBuffer { bo: B1 }));
}

#[test]
fn device_and_surface_disposal_destroy_once() {
    let mut native = MockNative::new();
    native.perform(Surface::new(S1).unwrap().dispose());
    native.perform(Device::from_fd(7, H1).unwrap().dispose());
    assert_eq!(native.destroys_of(S1), 1);
    assert_eq!(native.destroys_of(H1), 1);
    assert_eq!(
        native.calls,
        vec![NativeCall::DestroySurface { surface: S1 }, NativeCall::DestroyDevice { device: H1 }]
    );
}

#[test]
fn scanout_surface_session() {
    let mut native = MockNative::new();
    let dev = Device::from_fd(7, H1).unwrap();
    assert_eq!(dev.fd(), 7);
    let usage = USE_SCANOUT | USE_RENDERING;
    assert_eq!(usage, 5);
    assert_eq!(XRGB8888, 0x3432_5258);
    let surface = Surface::new(native.create_surface(S1, B1, 1920, 1080)).unwrap();
    let bo = surface.lock_front_buffer(B1).unwrap();
    assert_eq!(bo.provenance(), Provenance::Borrowed { surface: S1 });
    assert_eq!(native.width_of(bo.c_struct()), 1920);
    assert_eq!(native.height_of(bo.c_struct()), 1080);
    native.perform(surface.release_buffer(bo).unwrap());
    assert_eq!(native.releases_of(B1), 1);
    assert_eq!(native.destroys(), 0);
    native.perform(surface.dispose());
    assert_eq!(native.destroys_of(S1), 1);
    native.perform(dev.dispose());
    assert_eq!(native.destroys_of(H1), 1);
    assert_eq!(native.destroys(), 2);
}

#[test]
fn format_codes_pack_four_characters() {
    let code = |s: &[u8; 4]| u32::from_le_bytes(*s);
    assert_eq!(XRGB8888, code(b"XR24"));
    assert_eq!(ARGB8888, code(b"AR24"));
    assert_eq!(NV12, code(b"NV12"));
    assert_eq!(gbm_rs::format::C8, code(b"C8  "));
    assert_eq!(gbm_rs::format::YUYV, code(b"YUYV"));
}

#[test]
fn usage_flags_are_distinct_bits() {
    assert_eq!(USE_SCANOUT, 1);
    assert_eq!(USE_CURSOR, 2);
    assert_eq!(USE_RENDERING, 4);
    assert_eq!(USE_WRITE, 8);
}
