use vstd::prelude::*;

use crate::error::{Error, Result};

verus! {

/// Relies on `errno::set_errno`: sets the calling thread's `errno`.
#[verifier::external_body]
fn clear_last_error() {
    errno::set_errno(errno::Errno(0));
}

/// Relies on `errno::errno`: reads the calling thread's `errno`. What it holds
/// depends on the calls made before, so nothing is stated of it.
#[verifier::external_body]
fn last_error() -> i32 {
    errno::errno().0
}

/// Decides what a handle-returning native call produced: a null handle (0)
/// is a failure carrying `code`, the `errno` read right after the call; any
/// other value is the new handle.
pub fn handle_or_error(ptr: usize, code: i32) -> (r: Result<usize>)
    ensures
        r == (if ptr == 0 {
            Err::<usize, Error>(Error::Ioctl(code))
        } else {
            Ok::<usize, Error>(ptr)
        }),
{
    if ptr == 0 {
        Err(Error::Ioctl(code))
    } else {
        Ok(ptr)
    }
}

/// Runs one handle-returning native call under the `errno` protocol: the
/// failure channel is cleared first, and read at once if the call returned a
/// null handle, so that no later call can overwrite the code.
pub fn native_call<F: FnOnce() -> usize>(call: F) -> (r: Result<usize>)
    requires
        call.requires(()),
    ensures
        match r {
            Ok(p) => p != 0 && call.ensures((), p),
            Err(_) => call.ensures((), 0usize),
        },
{
    clear_last_error();
    let ptr = call();
    let code: i32 = if ptr == 0 {
        last_error()
    } else {
        0
    };
    handle_or_error(ptr, code)
}

/// An open native device. The handle is never null, and the value owns it:
/// `destroy` hands it back to the native library, which can happen only once.
pub struct GbmDevice {
    raw: usize,
}

impl GbmDevice {
    #[verifier::type_invariant]
    spec fn valid(self) -> bool {
        self.raw != 0
    }

    /// The native handle.
    pub closed spec fn handle(self) -> usize {
        self.raw
    }

    /// Opens a native device on the descriptor `fd` through `create`, the
    /// native device-creation call.
    pub fn new<F: FnOnce(i32) -> usize>(fd: i32, create: F) -> (r: Result<GbmDevice>)
        requires
            create.requires((fd,)),
        ensures
            match r {
                Ok(d) => d.handle() != 0 && create.ensures((fd,), d.handle()),
                Err(_) => create.ensures((fd,), 0usize),
            },
    {
        let call = move || -> (p: usize)
            requires
                create.requires((fd,)),
            ensures
                create.ensures((fd,), p),
        {
            create(fd)
        };
        let ptr = native_call(call)?;
        Ok(GbmDevice { raw: ptr })
    }

    /// The native handle, never null.
    pub fn raw(&self) -> (r: usize)
        ensures
            r == self.handle(),
            r != 0,
    {
        proof {
            use_type_invariant(self);
        }
        self.raw
    }

    /// Hands the handle to `destroy`, the native device-destruction call.
    pub fn destroy<F: FnOnce(usize)>(self, destroy: F)
        requires
            destroy.requires((self.handle(),)),
        ensures
            self.handle() != 0,
            destroy.ensures((self.handle(),), ()),
    {
        proof {
            use_type_invariant(&self);
        }
        destroy(self.raw);
    }
}

/// A native rendering surface. The handle is never null, and the value owns
/// it until `destroy`.
pub struct GbmSurface {
    raw: usize,
}

impl GbmSurface {
    #[verifier::type_invariant]
    spec fn valid(self) -> bool {
        self.raw != 0
    }

    /// The native handle.
    pub closed spec fn handle(self) -> usize {
        self.raw
    }

    /// Creates a surface on `device` through `create`, the native
    /// surface-creation call, which receives the device handle and the
    /// parameters unchanged.
    pub fn new<F: FnOnce(usize, u32, u32, u32, u32) -> usize>(
        device: &GbmDevice,
        width: u32,
        height: u32,
        format: u32,
        flags: u32,
        create: F,
    ) -> (r: Result<GbmSurface>)
        requires
            create.requires((device.handle(), width, height, format, flags)),
        ensures
            match r {
                Ok(s) => s.handle() != 0 && create.ensures(
                    (device.handle(), width, height, format, flags),
                    s.handle(),
                ),
                Err(_) => create.ensures((device.handle(), width, height, format, flags), 0usize),
            },
    {
        let dev = device.raw();
        let call = move || -> (p: usize)
            requires
                create.requires((dev, width, height, format, flags)),
            ensures
                create.ensures((dev, width, height, format, flags), p),
        {
            create(dev, width, height, format, flags)
        };
        let ptr = native_call(call)?;
        Ok(GbmSurface { raw: ptr })
    }

    /// Locks the surface's front buffer through `lock`, the native lock call,
    /// which receives this surface's handle.
    pub fn lock_front_buffer<F: FnOnce(usize) -> usize>(&self, lock: F) -> (r: Result<
        GbmBufferObject,
    >)
        requires
            lock.requires((self.handle(),)),
        ensures
            match r {
                Ok(b) => b.handle() != 0 && lock.ensures((self.handle(),), b.handle()),
                Err(_) => lock.ensures((self.handle(),), 0usize),
            },
    {
        let surface = self.raw();
        let call = move || -> (p: usize)
            requires
                lock.requires((surface,)),
            ensures
                lock.ensures((surface,), p),
        {
            lock(surface)
        };
        let ptr = native_call(call)?;
        Ok(GbmBufferObject { raw: ptr })
    }

    /// Hands a buffer locked from this surface back through `release`, the
    /// native release call, which receives the surface and buffer handles.
    pub fn release_front_buffer<F: FnOnce(usize, usize)>(
        &self,
        buffer: &GbmBufferObject,
        release: F,
    )
        requires
            release.requires((self.handle(), buffer.handle())),
        ensures
            self.handle() != 0,
            buffer.handle() != 0,
            release.ensures((self.handle(), buffer.handle()), ()),
    {
        proof {
            use_type_invariant(self);
            use_type_invariant(buffer);
        }
        release(self.raw, buffer.raw);
    }

    /// The native handle, never null.
    pub fn raw(&self) -> (r: usize)
        ensures
            r == self.handle(),
            r != 0,
    {
        proof {
            use_type_invariant(self);
        }
        self.raw
    }

    /// Hands the handle to `destroy`, the native surface-destruction call.
    pub fn destroy<F: FnOnce(usize)>(self, destroy: F)
        requires
            destroy.requires((self.handle(),)),
        ensures
            self.handle() != 0,
            destroy.ensures((self.handle(),), ()),
    {
        proof {
            use_type_invariant(&self);
        }
        destroy(self.raw);
    }
}

/// A native buffer object: either allocated on a device, or a surface's
/// front buffer while it is locked. The handle is never null.
pub struct GbmBufferObject {
    raw: usize,
}

impl GbmBufferObject {
    #[verifier::type_invariant]
    spec fn valid(self) -> bool {
        self.raw != 0
    }

    /// The native handle.
    pub closed spec fn handle(self) -> usize {
        self.raw
    }

    /// Allocates a buffer on `device` through `create`, the native
    /// buffer-creation call, which receives the device handle and the
    /// parameters unchanged.
    pub fn new<F: FnOnce(usize, u32, u32, u32, u32) -> usize>(
        device: &GbmDevice,
        width: u32,
        height: u32,
        format: u32,
        flags: u32,
        create: F,
    ) -> (r: Result<GbmBufferObject>)
        requires
            create.requires((device.handle(), width, height, format, flags)),
        ensures
            match r {
                Ok(b) => b.handle() != 0 && create.ensures(
                    (device.handle(), width, height, format, flags),
                    b.handle(),
                ),
                Err(_) => create.ensures((device.handle(), width, height, format, flags), 0usize),
            },
    {
        let dev = device.raw();
        let call = move || -> (p: usize)
            requires
                create.requires((dev, width, height, format, flags)),
            ensures
                create.ensures((dev, width, height, format, flags), p),
        {
            create(dev, width, height, format, flags)
        };
        let ptr = native_call(call)?;
        Ok(GbmBufferObject { raw: ptr })
    }

    /// The native handle, never null.
    pub fn raw(&self) -> (r: usize)
        ensures
            r == self.handle(),
            r != 0,
    {
        proof {
            use_type_invariant(self);
        }
        self.raw
    }

    /// Hands the handle to `destroy`, the native buffer-destruction call.
    pub fn destroy<F: FnOnce(usize)>(self, destroy: F)
        requires
            destroy.requires((self.handle(),)),
        ensures
            self.handle() != 0,
            destroy.ensures((self.handle(),), ()),
    {
        proof {
            use_type_invariant(&self);
        }
        destroy(self.raw);
    }
}

} // verus!
