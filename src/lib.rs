use vstd::prelude::*;

use std::collections::HashMap;
use std::marker::PhantomData;
use std::rc::Rc;

pub mod error;
pub mod ffi;
pub mod user_data;

pub use crate::error::{Error, Result};
pub use crate::user_data::{lemma_user_data_round_trip, payload, UserData};

use crate::ffi::{GbmBufferObject, GbmDevice, GbmSurface};

verus! {

broadcast use vstd::std_specs::hash::group_hash_axioms;

/// The pixel formats that buffers and surfaces can be created with.
#[derive(Debug, Clone, Copy, PartialEq, Eq, Structural)]
pub enum Format {
    /// 32 bits per pixel, 8 bits each of red, green and blue, 8 unused.
    XRGB8888,
    /// 32 bits per pixel, 8 bits each of alpha, red, green and blue.
    ARGB8888,
}

/// The native library's number for a format.
pub open spec fn format_code(format: Format) -> u32 {
    match format {
        Format::XRGB8888 => 0,
        Format::ARGB8888 => 1,
    }
}

impl Format {
    /// The native library's number for this format.
    pub fn code(self) -> (r: u32)
        ensures
            r == format_code(self),
    {
        match self {
            Format::XRGB8888 => 0,
            Format::ARGB8888 => 1,
        }
    }
}

/// Native usage bit: the buffer can be shown by the display controller.
pub const SCANOUT_BIT: u32 = 1;

/// Native usage bit: the buffer can serve as a hardware cursor.
pub const CURSOR_BIT: u32 = 2;

/// Native usage bit: the buffer can be a rendering target.
pub const RENDERING_BIT: u32 = 4;

/// Native usage bit: the CPU can write the buffer.
pub const WRITE_BIT: u32 = 8;

/// Native usage bit: the buffer is laid out linearly.
pub const LINEAR_BIT: u32 = 16;

/// Every usage bit this library knows.
pub const ALL_BITS: u32 = 31;

/// A set of usage flags for a buffer or surface.
#[derive(Debug, Clone, Copy, PartialEq, Eq, Structural)]
pub struct BufferFlags {
    bits: u32,
}

impl BufferFlags {
    /// The native bit mask.
    pub closed spec fn mask(self) -> u32 {
        self.bits
    }

    /// The flags whose bits are those of `bits` that this library knows;
    /// the others are dropped.
    pub fn from_bits_truncate(bits: u32) -> (r: BufferFlags)
        ensures
            r.mask() == bits & ALL_BITS,
    {
        BufferFlags { bits: bits & ALL_BITS }
    }

    /// The empty set.
    pub fn empty() -> (r: BufferFlags)
        ensures
            r.mask() == 0,
    {
        BufferFlags { bits: 0 }
    }

    /// Every known flag.
    pub fn all() -> (r: BufferFlags)
        ensures
            r.mask() == ALL_BITS,
    {
        BufferFlags { bits: ALL_BITS }
    }

    /// Usable for scanout.
    pub fn scanout() -> (r: BufferFlags)
        ensures
            r.mask() == SCANOUT_BIT,
    {
        BufferFlags { bits: SCANOUT_BIT }
    }

    /// Usable as a cursor.
    pub fn cursor() -> (r: BufferFlags)
        ensures
            r.mask() == CURSOR_BIT,
    {
        BufferFlags { bits: CURSOR_BIT }
    }

    /// Usable as a rendering target.
    pub fn rendering() -> (r: BufferFlags)
        ensures
            r.mask() == RENDERING_BIT,
    {
        BufferFlags { bits: RENDERING_BIT }
    }

    /// Writable by the CPU.
    pub fn write() -> (r: BufferFlags)
        ensures
            r.mask() == WRITE_BIT,
    {
        BufferFlags { bits: WRITE_BIT }
    }

    /// Laid out linearly.
    pub fn linear() -> (r: BufferFlags)
        ensures
            r.mask() == LINEAR_BIT,
    {
        BufferFlags { bits: LINEAR_BIT }
    }

    /// The native bit mask.
    pub fn bits(self) -> (r: u32)
        ensures
            r == self.mask(),
    {
        self.bits
    }

    /// The flags set in either `self` or `other`.
    pub fn union(self, other: BufferFlags) -> (r: BufferFlags)
        ensures
            r.mask() == self.mask() | other.mask(),
    {
        BufferFlags { bits: self.bits | other.bits }
    }

    /// The flags set in both `self` and `other`.
    pub fn intersection(self, other: BufferFlags) -> (r: BufferFlags)
        ensures
            r.mask() == self.mask() & other.mask(),
    {
        BufferFlags { bits: self.bits & other.bits }
    }

    /// Whether every flag of `other` is set in `self`.
    pub fn contains(self, other: BufferFlags) -> (r: bool)
        ensures
            r == (self.mask() & other.mask() == other.mask()),
    {
        self.bits & other.bits == other.bits
    }

    /// Whether no flag is set.
    pub fn is_empty(self) -> (r: bool)
        ensures
            r == (self.mask() == 0),
    {
        self.bits == 0
    }
}

/// An open native device on a descriptor that the caller keeps owning.
/// Surfaces and buffers made from it borrow it, so it cannot be destroyed
/// while any of them exists.
pub struct Device {
    fd: i32,
    raw: GbmDevice,
}

impl Device {
    /// The native device handle.
    pub closed spec fn handle(&self) -> usize {
        self.raw.handle()
    }

    /// The descriptor the device was opened on.
    pub closed spec fn descriptor(&self) -> i32 {
        self.fd
    }

    /// Opens a device on the descriptor `fd` of an open device file through
    /// `create`, the native device-creation call. A null handle from it
    /// becomes the error carrying `errno`.
    pub fn from_file<F: FnOnce(i32) -> usize>(fd: i32, create: F) -> (r: Result<Device>)
        requires
            create.requires((fd,)),
        ensures
            match r {
                Ok(d) => d.handle() != 0 && d.descriptor() == fd && create.ensures(
                    (fd,),
                    d.handle(),
                ),
                Err(_) => create.ensures((fd,), 0usize),
            },
    {
        let raw = GbmDevice::new(fd, create)?;
        Ok(Device { fd, raw })
    }

    /// Allocates a standalone buffer of `size` (width, height) through
    /// `create`, the native buffer-creation call, which receives this
    /// device's handle, the size, the format's code and the flags' mask.
    pub fn buffer<'a, D, F: FnOnce(usize, u32, u32, u32, u32) -> usize>(
        &'a self,
        size: (u32, u32),
        format: Format,
        flags: BufferFlags,
        create: F,
    ) -> (r: Result<Buffer<'a, D>>)
        requires
            create.requires((self.handle(), size.0, size.1, format_code(format), flags.mask())),
        ensures
            match r {
                Ok(b) => b.handle() != 0 && b.user_data() is None && create.ensures(
                    (self.handle(), size.0, size.1, format_code(format), flags.mask()),
                    b.handle(),
                ),
                Err(_) => create.ensures(
                    (self.handle(), size.0, size.1, format_code(format), flags.mask()),
                    0usize,
                ),
            },
    {
        let (width, height) = size;
        let bo = GbmBufferObject::new(&self.raw, width, height, format.code(), flags.bits(), create)?;
        Ok(Buffer { bo, user_data: UserData::new(), device: PhantomData })
    }

    /// Creates a surface of `size` (width, height); see
    /// `Surface::from_device`.
    pub fn surface<'a, D, F: FnOnce(usize, u32, u32, u32, u32) -> usize>(
        &'a self,
        size: (u32, u32),
        format: Format,
        flags: BufferFlags,
        create: F,
    ) -> (r: Result<Surface<'a, D>>)
        requires
            create.requires((self.handle(), size.0, size.1, format_code(format), flags.mask())),
        ensures
            match r {
                Ok(s) => s.handle() != 0 && !s.is_locked() && s.payloads() == Map::<
                    usize,
                    D,
                >::empty() && create.ensures(
                    (self.handle(), size.0, size.1, format_code(format), flags.mask()),
                    s.handle(),
                ),
                Err(_) => create.ensures(
                    (self.handle(), size.0, size.1, format_code(format), flags.mask()),
                    0usize,
                ),
            },
    {
        Surface::from_device(self, size, format, flags, create)
    }

    /// The descriptor the device was opened on.
    pub fn fd(&self) -> (r: i32)
        ensures
            r == self.descriptor(),
    {
        self.fd
    }

    /// The native device handle, never null.
    pub fn raw(&self) -> (r: usize)
        ensures
            r == self.handle(),
            r != 0,
    {
        self.raw.raw()
    }

    /// Hands the device back through `destroy`, the native destruction call,
    /// with its own handle.
    pub fn destroy<F: FnOnce(usize)>(self, destroy: F)
        requires
            destroy.requires((self.handle(),)),
        ensures
            self.handle() != 0,
            destroy.ensures((self.handle(),), ()),
    {
        self.raw.destroy(destroy);
    }
}

/// The values that a registry of shared payloads refers to.
pub open spec fn payload_values<D>(m: Map<usize, Rc<D>>) -> Map<usize, D> {
    m.map_values(|rc: Rc<D>| *rc)
}

/// A rendering surface made from a device, which it cannot outlive. It is
/// either unlocked or has exactly one front buffer locked out.
///
/// The native surface owns the memory of its buffers, and a buffer comes back
/// from one lock to another. So the payload attached to a front buffer stays
/// with the surface, under the buffer's handle, after the buffer is released;
/// it is handed out again when that buffer is next locked, and released when
/// the surface is destroyed.
pub struct Surface<'a, D> {
    raw: GbmSurface,
    locked: bool,
    payloads: HashMap<usize, Rc<D>>,
    device: PhantomData<&'a Device>,
}

impl<'a, D> Surface<'a, D> {
    /// The payloads kept for the surface's buffers that are not locked out,
    /// by buffer handle.
    pub closed spec fn payloads(&self) -> Map<usize, D> {
        payload_values(self.payloads@)
    }

    /// The native surface handle.
    pub closed spec fn handle(&self) -> usize {
        self.raw.handle()
    }

    /// Whether a front buffer is locked out of this surface.
    pub closed spec fn is_locked(&self) -> bool {
        self.locked
    }

    /// Creates a surface of `size` (width, height) on `device` through
    /// `create`, the native surface-creation call, which receives the
    /// device's handle, the size, the format's code and the flags' mask. The
    /// new surface is unlocked and keeps no payload.
    pub fn from_device<F: FnOnce(usize, u32, u32, u32, u32) -> usize>(
        device: &'a Device,
        size: (u32, u32),
        format: Format,
        flags: BufferFlags,
        create: F,
    ) -> (r: Result<Surface<'a, D>>)
        requires
            create.requires((device.handle(), size.0, size.1, format_code(format), flags.mask())),
        ensures
            match r {
                Ok(s) => s.handle() != 0 && !s.is_locked() && s.payloads() == Map::<
                    usize,
                    D,
                >::empty() && create.ensures(
                    (device.handle(), size.0, size.1, format_code(format), flags.mask()),
                    s.handle(),
                ),
                Err(_) => create.ensures(
                    (device.handle(), size.0, size.1, format_code(format), flags.mask()),
                    0usize,
                ),
            },
    {
        let (width, height) = size;
        let raw = GbmSurface::new(&device.raw, width, height, format.code(), flags.bits(), create)?;
        Ok(Surface { raw, locked: false, payloads: HashMap::new(), device: PhantomData })
    }

    /// Whether a front buffer is locked out of this surface.
    pub fn locked(&self) -> (r: bool)
        ensures
            r == self.is_locked(),
    {
        self.locked
    }

    /// Locks the front buffer for display through `lock`, the native lock
    /// call, which receives this surface's handle. Only an unlocked surface
    /// can be locked; on success it stays locked until the front buffer is
    /// released, and on failure it stays unlocked. The front buffer carries
    /// the payload kept for its handle, which the surface gives up meanwhile.
    pub fn lock_front_buffer<F: FnOnce(usize) -> usize>(&mut self, lock: F) -> (r: Result<
        FrontBuffer<D>,
    >)
        requires
            !old(self).is_locked(),
            lock.requires((old(self).handle(),)),
        ensures
            final(self).handle() == old(self).handle(),
            match r {
                Ok(b) => {
                    &&& final(self).is_locked()
                    &&& b.surface() == old(self).handle()
                    &&& b.handle() != 0
                    &&& b.user_data() == (if old(self).payloads().contains_key(b.handle()) {
                        Some(old(self).payloads()[b.handle()])
                    } else {
                        None
                    })
                    &&& final(self).payloads() == old(self).payloads().remove(b.handle())
                    &&& lock.ensures((old(self).handle(),), b.handle())
                },
                Err(_) => {
                    &&& !final(self).is_locked()
                    &&& final(self).payloads() == old(self).payloads()
                    &&& lock.ensures((old(self).handle(),), 0usize)
                },
            },
    {
        let bo = self.raw.lock_front_buffer(lock)?;
        let key = bo.raw();
        let kept = self.payloads.remove(&key);
        proof {
            assert(payload_values(self.payloads@) =~= payload_values(old(self).payloads@).remove(
                key,
            ));
        }
        self.locked = true;
        Ok(FrontBuffer { bo, surface: self.raw.raw(), user_data: UserData::holding(kept) })
    }

    /// Gives the front buffer locked out of this surface back through
    /// `release`, the native release call, which receives this surface's
    /// handle and the handle that was locked. The surface is unlocked again;
    /// the buffer is not destroyed, as the surface owns its memory. The
    /// front buffer's payload is kept under its handle.
    pub fn release_front_buffer<F: FnOnce(usize, usize)>(
        &mut self,
        front: FrontBuffer<D>,
        release: F,
    )
        requires
            old(self).is_locked(),
            front.surface() == old(self).handle(),
            release.requires((old(self).handle(), front.handle())),
        ensures
            final(self).handle() == old(self).handle(),
            !final(self).is_locked(),
            front.handle() != 0,
            final(self).payloads() == (match front.user_data() {
                Some(v) => old(self).payloads().insert(front.handle(), v),
                None => old(self).payloads().remove(front.handle()),
            }),
            release.ensures((old(self).handle(), front.handle()), ()),
    {
        self.raw.release_front_buffer(&front.bo, release);
        let key = front.bo.raw();
        let ghost before = self.payloads@;
        self.payloads.remove(&key);
        match front.user_data.into_inner() {
            Some(rc) => {
                self.payloads.insert(key, rc);
                proof {
                    assert(payload_values(self.payloads@) =~= payload_values(before).insert(
                        key,
                        *rc,
                    ));
                }
            },
            None => {
                proof {
                    assert(payload_values(self.payloads@) =~= payload_values(before).remove(key));
                }
            },
        }
        self.locked = false;
    }

    /// The native surface handle, never null.
    pub fn raw(&self) -> (r: usize)
        ensures
            r == self.handle(),
            r != 0,
    {
        self.raw.raw()
    }

    /// Hands the surface back through `destroy`, the native destruction call,
    /// with its own handle. No front buffer may be locked out of it. The
    /// payloads it keeps are released with it.
    pub fn destroy<F: FnOnce(usize)>(self, destroy: F)
        requires
            !self.is_locked(),
            destroy.requires((self.handle(),)),
        ensures
            self.handle() != 0,
            destroy.ensures((self.handle(),), ()),
    {
        self.raw.destroy(destroy);
    }
}

/// A surface's front buffer while it is locked. It does not own the native
/// buffer: the only way to end it is `Surface::release_front_buffer`, which
/// never destroys the buffer.
pub struct FrontBuffer<D> {
    bo: GbmBufferObject,
    surface: usize,
    user_data: UserData<D>,
}

impl<D> FrontBuffer<D> {
    /// The native buffer handle.
    pub closed spec fn handle(&self) -> usize {
        self.bo.handle()
    }

    /// The handle of the surface it was locked from.
    pub closed spec fn surface(&self) -> usize {
        self.surface
    }

    /// The attached payload, if any.
    pub closed spec fn user_data(&self) -> Option<D> {
        self.user_data@
    }

    /// The native buffer handle, never null.
    pub fn raw(&self) -> (r: usize)
        ensures
            r == self.handle(),
            r != 0,
    {
        self.bo.raw()
    }

    /// The handle of the surface it was locked from.
    pub fn surface_raw(&self) -> (r: usize)
        ensures
            r == self.surface(),
    {
        self.surface
    }

    /// Attaches a reference-counted payload, or detaches it with `None`; a
    /// payload attached before is released first.
    pub fn set_user_data(&mut self, data: Option<Rc<D>>)
        ensures
            final(self).user_data() == payload(data),
            final(self).handle() == old(self).handle(),
            final(self).surface() == old(self).surface(),
    {
        self.user_data.set(data);
    }

    /// A new reference to the attached payload, if any.
    pub fn get_user_data(&self) -> (r: Option<Rc<D>>)
        ensures
            payload(r) == self.user_data(),
    {
        self.user_data.get()
    }
}

/// A buffer allocated on a device, which it cannot outlive. It owns the
/// native buffer: the only way to end it is `destroy`, which never goes
/// through a surface's release call.
pub struct Buffer<'a, D> {
    bo: GbmBufferObject,
    user_data: UserData<D>,
    device: PhantomData<&'a Device>,
}

impl<'a, D> Buffer<'a, D> {
    /// The native buffer handle.
    pub closed spec fn handle(&self) -> usize {
        self.bo.handle()
    }

    /// The attached payload, if any.
    pub closed spec fn user_data(&self) -> Option<D> {
        self.user_data@
    }

    /// The native buffer handle, never null.
    pub fn raw(&self) -> (r: usize)
        ensures
            r == self.handle(),
            r != 0,
    {
        self.bo.raw()
    }

    /// Attaches a reference-counted payload, or detaches it with `None`; a
    /// payload attached before is released first.
    pub fn set_user_data(&mut self, data: Option<Rc<D>>)
        ensures
            final(self).user_data() == payload(data),
            final(self).handle() == old(self).handle(),
    {
        self.user_data.set(data);
    }

    /// A new reference to the attached payload, if any.
    pub fn get_user_data(&self) -> (r: Option<Rc<D>>)
        ensures
            payload(r) == self.user_data(),
    {
        self.user_data.get()
    }

    /// Hands the buffer back through `destroy`, the native destruction call,
    /// with its own handle. The attached payload's reference goes with it.
    pub fn destroy<F: FnOnce(usize)>(self, destroy: F)
        requires
            destroy.requires((self.handle(),)),
        ensures
            self.handle() != 0,
            destroy.ensures((self.handle(),), ()),
    {
        self.bo.destroy(destroy);
    }
}

/// A payload attached to a front buffer outlives the lock. From the payloads
/// `before` a surface keeps, releasing buffer `bo` with payload `data` keeps
/// `after_release`; locking `bo` again then hands out `relocked` and keeps
/// `after_lock`. The relocked buffer carries `data` again, and the surface is
/// back to `before` without `bo`.
pub proof fn lemma_front_buffer_payload_persists<D>(
    before: Map<usize, D>,
    bo: usize,
    data: Option<D>,
    after_release: Map<usize, D>,
    relocked: Option<D>,
    after_lock: Map<usize, D>,
)
    requires
        after_release == (match data {
            Some(v) => before.insert(bo, v),
            None => before.remove(bo),
        }),
        relocked == (if after_release.contains_key(bo) {
            Some(after_release[bo])
        } else {
            None
        }),
        after_lock == after_release.remove(bo),
    ensures
        relocked == data,
        after_lock == before.remove(bo),
{
    assert(after_lock =~= before.remove(bo));
}

} // verus!
