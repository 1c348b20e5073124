use vstd::prelude::*;

verus! {

/// The one way a call into the native buffer library can fail: the native
/// call reported failure and left this code in `errno`.
#[derive(Debug, Clone, Copy, PartialEq, Eq, Structural)]
pub enum Error {
    Ioctl(i32),
}

/// Outcome of a fallible operation of this library.
pub type Result<T> = core::result::Result<T, Error>;

/// Relies on `errno::Errno`'s `Display`: the system's description of the code
/// (it may depend on the locale, so nothing is stated of it).
#[verifier::external_body]
fn errno_text(code: i32) -> (r: String) {
    errno::Errno(code).to_string()
}

impl Error {
    /// Wraps a native failure code.
    pub fn from_code(code: i32) -> (r: Error)
        ensures
            r == Error::Ioctl(code),
    {
        Error::Ioctl(code)
    }

    /// The native failure code carried by this error.
    pub fn code(&self) -> (r: i32)
        ensures
            *self == Error::Ioctl(r),
    {
        match self {
            Error::Ioctl(c) => *c,
        }
    }

    /// Short description; this layer adds none beyond the code.
    pub fn description(&self) -> (r: &'static str)
        ensures
            r@ == Seq::<char>::empty(),
    {
        proof {
            reveal_strlit("");
        }
        ""
    }

    /// The error this one was caused by; a native failure has none.
    pub fn cause(&self) -> (r: Option<Error>)
        ensures
            r is None,
    {
        None
    }

    /// Human-readable text for the native code.
    pub fn message(&self) -> String {
        errno_text(self.code())
    }
}

} // verus!
