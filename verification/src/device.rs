//! The write-capability adapters that need no hardware access: `File`, which
//! wraps any writer (an open file handle, an in-memory buffer, a test
//! double), and the error taxonomy shared by every adapter.

use vstd::prelude::*;

pub use crate::usb::Usb;

verus! {

/// Why an adapter could not be constructed, or a write or flush failed.
#[derive(Clone, Copy, Debug, PartialEq, Eq, Structural)]
pub enum DeviceError {
    /// No USB device matches the requested vendor/product pair.
    NotFound,
    /// The interface is already claimed elsewhere.
    Busy,
    /// Insufficient permission to use the device.
    Access,
    /// A USB bulk transfer failed (disconnected, stalled, timed out).
    Transfer,
    /// The underlying writer failed (permission, disk full, closed handle).
    Io,
}

/// Placeholder for a serial-port adapter; no serial transport is wired up.
pub struct Serial {}

/// An adapter over any writer: an already-open file handle, an in-memory
/// buffer, or any other implementor of the standard write capability.
#[derive(Debug)]
pub struct File<W> {
    fobj: W,
}

impl<W> File<W> {
    /// The wrapped writer, for specification purposes.
    pub closed spec fn inner(&self) -> W {
        self.fobj
    }

    /// Adopt an already-open writer without touching the filesystem.
    pub fn from(fobj: W) -> (f: File<W>)
        ensures
            f.inner() == fobj,
    {
        File { fobj }
    }

    /// Give the wrapped writer back, consuming the adapter.
    pub fn into_inner(self) -> (w: W)
        ensures
            w == self.inner(),
    {
        self.fobj
    }
}

/// Relies on the documented contract of `std::io::Write::write`: a success
/// `Ok(n)` guarantees `n` is at most the length of the slice handed over,
/// here the tail of `buf` starting at `from`.
#[verifier::external_body]
fn write_step<W: std::io::Write>(w: &mut W, buf: &[u8], from: usize) -> (r: Result<
    usize,
    DeviceError,
>)
    requires
        from <= buf@.len(),
    ensures
        r matches Ok(n) ==> from + n <= buf@.len(),
        r matches Err(e) ==> e == DeviceError::Io,
{
    match w.write(&buf[from..]) {
        Ok(n) => Ok(n),
        Err(_) => Err(DeviceError::Io),
    }
}

/// Relies on `std::io::Write::flush`.
#[verifier::external_body]
fn flush_step<W: std::io::Write>(w: &mut W) -> (r: Result<(), DeviceError>)
    ensures
        r matches Err(e) ==> e == DeviceError::Io,
{
    match w.flush() {
        Ok(()) => Ok(()),
        Err(_) => Err(DeviceError::Io),
    }
}

impl<W: std::io::Write> File<W> {
    /// Hand the whole buffer to the wrapped writer, re-driving it past short
    /// writes: either every byte is accepted and the full length comes back,
    /// or an error does — a partial count is never returned. An empty buffer
    /// asks nothing of the writer and always succeeds; a writer that accepts
    /// no bytes at all surfaces as `Io`.
    pub fn write(&mut self, buf: &[u8]) -> (r: Result<usize, DeviceError>)
        ensures
            r matches Ok(n) ==> n == buf@.len(),
            r matches Err(e) ==> e == DeviceError::Io,
            buf@.len() == 0 ==> r.is_ok(),
    {
        let mut written: usize = 0;
        while written < buf.len()
            invariant
                written <= buf@.len(),
            decreases buf@.len() - written,
        {
            match write_step(&mut self.fobj, buf, written) {
                Ok(n) => {
                    if n == 0 {
                        return Err(DeviceError::Io);
                    }
                    written = written + n;
                },
                Err(e) => {
                    return Err(e);
                },
            }
        }
        Ok(buf.len())
    }

    /// Forward a flush to the wrapped writer; its verdict propagates
    /// unchanged.
    pub fn flush(&mut self) -> (r: Result<(), DeviceError>)
        ensures
            r matches Err(e) ==> e == DeviceError::Io,
    {
        flush_step(&mut self.fobj)
    }
}

} // verus!
