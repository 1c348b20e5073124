use std::cell::Cell;
use std::rc::Rc;

use gbm::error::Error;
use gbm::ffi::{native_call, handle_or_error, GbmBufferObject, GbmDevice, GbmSurface};
use gbm::{BufferFlags, Device, Format, FrontBuffer, Surface};

fn open_device() -> Device {
    Device::from_file(7, |_| 0x10).unwrap()
}

#[test]
fn translate_null_is_error() {
    assert_eq!(handle_or_error(0, 19), Err(Error::Ioctl(19)));
    assert_eq!(handle_or_error(0, 0), Err(Error::Ioctl(0)));
}

#[test]
fn translate_handle_is_ok() {
    assert_eq!(handle_or_error(0x40, 19), Ok(0x40));
    assert_eq!(handle_or_error(usize::MAX, 0), Ok(usize::MAX));
}

#[test]
fn native_call_reads_errno_after_failure() {
    let r = native_call(|| {
        errno::set_errno(errno::Errno(12));
        0
    });
    assert_eq!(r, Err(Error::Ioctl(12)));
}

#[test]
fn native_call_clears_stale_errno() {
    errno::set_errno(errno::Errno(5));
    let r = native_call(|| 0);
    assert_eq!(r, Err(Error::Ioctl(0)));
}

#[test]
fn native_call_passes_handle() {
    errno::set_errno(errno::Errno(5));
    assert_eq!(native_call(|| 0x77), Ok(0x77));
}

#[test]
fn error_accessors() {
    let e = Error::from_code(22);
    assert_eq!(e, Error::Ioctl(22));
    assert_eq!(e.code(), 22);
    assert_eq!(e.description(), "");
    assert_eq!(e.cause(), None);
    assert!(!e.message().is_empty());
}

#[test]
fn format_codes() {
    assert_eq!(Format::XRGB8888.code(), 0);
    assert_eq!(Format::ARGB8888.code(), 1);
}

#[test]
fn flag_bits() {
    assert_eq!(BufferFlags::scanout().bits(), 1);
    assert_eq!(BufferFlags::cursor().bits(), 2);
    assert_eq!(BufferFlags::rendering().bits(), 4);
    assert_eq!(BufferFlags::write().bits(), 8);
    assert_eq!(BufferFlags::linear().bits(), 16);
    assert_eq!(BufferFlags::all().bits(), 31);
    assert_eq!(BufferFlags::empty().bits(), 0);
    assert!(BufferFlags::empty().is_empty());
    let sr = BufferFlags::scanout().union(BufferFlags::rendering());
    assert_eq!(sr.bits(), 5);
    assert!(sr.contains(BufferFlags::scanout()));
    assert!(!sr.contains(BufferFlags::cursor()));
    assert_eq!(sr.intersection(BufferFlags::rendering()).bits(), 4);
    assert_eq!(BufferFlags::from_bits_truncate(0xff).bits(), 31);
    assert_eq!(BufferFlags::from_bits_truncate(0x24).bits(), 4);
}

#[test]
fn device_from_invalid_file_is_error() {
    let r = Device::from_file(9, |fd| {
        assert_eq!(fd, 9);
        errno::set_errno(errno::Errno(19));
        0
    });
    match r {
        Err(e) => assert_eq!(e, Error::Ioctl(19)),
        Ok(_) => panic!("a null device handle was wrapped"),
    }
}

#[test]
fn device_keeps_descriptor_and_handle() {
    let dev = Device::from_file(4, |_| 0x55).unwrap();
    assert_eq!(dev.fd(), 4);
    assert_eq!(dev.raw(), 0x55);
    let destroyed = Cell::new(Vec::new());
    dev.destroy(|h| {
        let mut v = destroyed.take();
        v.push(h);
        destroyed.set(v);
    });
    assert_eq!(destroyed.take(), vec![0x55]);
}

#[test]
fn create_then_destroy_calls_each_destructor_once() {
    let calls = Cell::new(0u32);
    let dev = open_device();
    {
        let buffer = dev
            .buffer::<u8, _>((16, 16), Format::XRGB8888, BufferFlags::scanout(), |_, _, _, _, _| 0x20)
            .unwrap();
        buffer.destroy(|h| {
            assert_eq!(h, 0x20);
            calls.set(calls.get() + 1);
        });
    }
    {
        let surface = dev
            .surface::<u8, _>((64, 32), Format::ARGB8888, BufferFlags::rendering(), |_, _, _, _, _| 0x30)
            .unwrap();
        surface.destroy(|h| {
            assert_eq!(h, 0x30);
            calls.set(calls.get() + 1);
        });
    }
    dev.destroy(|h| {
        assert_eq!(h, 0x10);
        calls.set(calls.get() + 1);
    });
    assert_eq!(calls.get(), 3);
}

#[test]
fn failed_buffer_creation_is_error() {
    let dev = open_device();
    let r = dev.buffer::<u8, _>((0, 0), Format::XRGB8888, BufferFlags::empty(), |_, _, _, _, _| {
        errno::set_errno(errno::Errno(22));
        0
    });
    assert_eq!(r.err(), Some(Error::Ioctl(22)));
}

#[test]
fn failed_surface_creation_is_error() {
    let dev = open_device();
    let r = Surface::<u8>::from_device(&dev, (8, 8), Format::ARGB8888, BufferFlags::all(), |d, w, h, f, fl| {
        assert_eq!((d, w, h, f, fl), (0x10, 8, 8, 1, 31));
        errno::set_errno(errno::Errno(12));
        0
    });
    assert_eq!(r.err().map(|e| e.code()), Some(12));
}

#[test]
fn front_buffer_release_gets_locked_handle() {
    let dev = open_device();
    let mut surface = dev
        .surface::<u8, _>((16, 16), Format::XRGB8888, BufferFlags::scanout(), |_, _, _, _, _| 0x30)
        .unwrap();
    assert!(!surface.locked());
    let front: FrontBuffer<u8> = surface
        .lock_front_buffer(|s| {
            assert_eq!(s, 0x30);
            0x31
        })
        .unwrap();
    assert!(surface.locked());
    assert_eq!(front.raw(), 0x31);
    let released = Cell::new((0usize, 0usize));
    let count = Cell::new(0u32);
    surface.release_front_buffer(front, |s, b| {
        released.set((s, b));
        count.set(count.get() + 1);
    });
    assert_eq!(released.get(), (0x30, 0x31));
    assert_eq!(count.get(), 1);
    assert!(!surface.locked());
}

#[test]
fn failed_lock_leaves_surface_unlocked() {
    let dev = open_device();
    let mut surface = dev
        .surface::<u8, _>((16, 16), Format::XRGB8888, BufferFlags::scanout(), |_, _, _, _, _| 0x30)
        .unwrap();
    let r = surface.lock_front_buffer(|_| {
        errno::set_errno(errno::Errno(16));
        0
    });
    assert_eq!(r.err(), Some(Error::Ioctl(16)));
    assert!(!surface.locked());
}

#[test]
fn two_lock_release_cycles() {
    let dev = open_device();
    let mut surface = dev
        .surface::<u8, _>((16, 16), Format::XRGB8888, BufferFlags::scanout(), |_, _, _, _, _| 0x30)
        .unwrap();
    let outstanding = Cell::new(0i32);
    for bo in [0x41usize, 0x42] {
        let front = surface
            .lock_front_buffer(|_| {
                outstanding.set(outstanding.get() + 1);
                bo
            })
            .unwrap();
        assert_eq!(outstanding.get(), 1);
        assert_eq!(front.raw(), bo);
        surface.release_front_buffer(front, |_, b| {
            assert_eq!(b, bo);
            outstanding.set(outstanding.get() - 1);
        });
        assert_eq!(outstanding.get(), 0);
    }
    surface.destroy(|_| {});
}

#[test]
fn front_buffer_user_data() {
    let dev = open_device();
    let mut surface = dev
        .surface::<String, _>((16, 16), Format::XRGB8888, BufferFlags::scanout(), |_, _, _, _, _| 0x30)
        .unwrap();
    let mut front = surface.lock_front_buffer(|_| 0x31).unwrap();
    assert_eq!(front.get_user_data(), None);
    let payload = Rc::new(String::from("fb"));
    front.set_user_data(Some(payload.clone()));
    assert_eq!(Rc::strong_count(&payload), 2);
    assert_eq!(front.get_user_data().as_deref().map(|s| s.as_str()), Some("fb"));
    surface.release_front_buffer(front, |_, _| {});
    // The surface keeps the payload while the buffer is not locked.
    assert_eq!(Rc::strong_count(&payload), 2);

    // Another buffer of the surface carries nothing.
    let other = surface.lock_front_buffer(|_| 0x32).unwrap();
    assert_eq!(other.get_user_data(), None);
    surface.release_front_buffer(other, |_, _| {});

    // The same buffer, locked again, carries the payload again.
    let again = surface.lock_front_buffer(|_| 0x31).unwrap();
    assert_eq!(again.get_user_data().as_deref().map(|s| s.as_str()), Some("fb"));
    surface.release_front_buffer(again, |_, _| {});
    assert_eq!(Rc::strong_count(&payload), 2);

    // Destroying the surface releases what it kept.
    surface.destroy(|_| {});
    assert_eq!(Rc::strong_count(&payload), 1);
}

#[test]
fn front_buffer_payload_cleared_before_release() {
    let dev = open_device();
    let mut surface = dev
        .surface::<u32, _>((16, 16), Format::XRGB8888, BufferFlags::scanout(), |_, _, _, _, _| 0x30)
        .unwrap();
    let value = Rc::new(7u32);
    let mut front = surface.lock_front_buffer(|_| 0x31).unwrap();
    front.set_user_data(Some(value.clone()));
    surface.release_front_buffer(front, |_, _| {});
    let mut front = surface.lock_front_buffer(|_| 0x31).unwrap();
    assert_eq!(front.get_user_data().map(|r| *r), Some(7));
    front.set_user_data(None);
    assert_eq!(Rc::strong_count(&value), 1);
    surface.release_front_buffer(front, |_, _| {});
    let front = surface.lock_front_buffer(|_| 0x31).unwrap();
    assert_eq!(front.get_user_data(), None);
    surface.release_front_buffer(front, |_, _| {});
    surface.destroy(|_| {});
}

#[test]
fn replacing_user_data_releases_previous() {
    let dev = open_device();
    let mut buffer = dev
        .buffer::<u32, _>((4, 4), Format::ARGB8888, BufferFlags::write(), |_, _, _, _, _| 0x20)
        .unwrap();
    let first = Rc::new(1u32);
    let second = Rc::new(2u32);
    buffer.set_user_data(Some(first.clone()));
    assert_eq!(Rc::strong_count(&first), 2);
    buffer.set_user_data(Some(second.clone()));
    assert_eq!(Rc::strong_count(&first), 1);
    assert_eq!(Rc::strong_count(&second), 2);
    assert_eq!(buffer.get_user_data().map(|r| *r), Some(2));
    buffer.destroy(|_| {});
    assert_eq!(Rc::strong_count(&second), 1);
}

#[test]
fn raw_layer_round_trip() {
    let dev = GbmDevice::new(3, |_| 0x10).unwrap();
    assert_eq!(dev.raw(), 0x10);
    let surface = GbmSurface::new(&dev, 8, 8, 0, 1, |d, _, _, _, _| d + 1).unwrap();
    assert_eq!(surface.raw(), 0x11);
    let front = surface.lock_front_buffer(|s| s + 1).unwrap();
    assert_eq!(front.raw(), 0x12);
    let released = Cell::new(false);
    surface.release_front_buffer(&front, |s, b| released.set(s == 0x11 && b == 0x12));
    assert!(released.get());
    let bo = GbmBufferObject::new(&dev, 8, 8, 1, 4, |_, w, h, f, fl| (w + h + f + fl) as usize).unwrap();
    assert_eq!(bo.raw(), 21);
    assert!(GbmBufferObject::new(&dev, 8, 8, 1, 4, |_, _, _, _, _| 0).is_err());
    assert!(surface.lock_front_buffer(|_| 0).is_err());
    bo.destroy(|_| {});
    surface.destroy(|_| {});
    dev.destroy(|_| {});
}
