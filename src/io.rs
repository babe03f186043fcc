//! The storage capability that the decoding engine calls into, and the bridge
//! that routes its calls to whichever backend is installed.

use vstd::prelude::*;
use crate::handles::{Handle, HANDLE_ERROR, HANDLE_FALLBACK};

verus! {

/// How the engine wants to use a file.
#[derive(Clone, Copy, Debug, PartialEq, Eq, Structural)]
pub enum FileAccess {
    Read,
    Write,
}

impl FileAccess {
    /// The numeric code of this access mode in the engine's interface.
    pub open spec fn spec_code(self) -> i32 {
        match self {
            FileAccess::Read => 1,
            FileAccess::Write => 2,
        }
    }

    /// The access mode with numeric code `c`, if there is one.
    pub open spec fn spec_from_code(c: i32) -> Option<FileAccess> {
        if c == 1 {
            Some(FileAccess::Read)
        } else if c == 2 {
            Some(FileAccess::Write)
        } else {
            None
        }
    }

    /// The numeric code of this access mode.
    pub fn code(self) -> (r: i32)
        ensures
            r == self.spec_code(),
    {
        match self {
            FileAccess::Read => 1,
            FileAccess::Write => 2,
        }
    }

    /// Reads a numeric access code; `None` for a code that no mode has.
    pub fn from_code(c: i32) -> (r: Option<FileAccess>)
        ensures
            r == FileAccess::spec_from_code(c),
    {
        if c == 1 {
            Some(FileAccess::Read)
        } else if c == 2 {
            Some(FileAccess::Write)
        } else {
            None
        }
    }
}

/// A storage backend: a minimal positioned-I/O file interface.
///
/// `open` answers with a usable handle, with `HANDLE_ERROR` when it recognises
/// the request and cannot satisfy it, or with `HANDLE_FALLBACK` when it does not
/// claim the path and another mechanism should try. Reads are at absolute
/// offsets and succeed only when they fill the whole buffer; writes are
/// sequential and succeed only when they take the whole buffer. Calls that
/// change which handles are live take `&mut self`.
pub trait IoInterface {
    /// Opens a file, positioned at its start.
    fn open(&mut self, path: &str, access: FileAccess) -> Handle;

    /// The size of the file behind a handle; 0 when it cannot be told.
    fn filesize(&self, handle: Handle) -> u64;

    /// Retires a handle. An unknown or already closed handle is ignored.
    fn close(&mut self, handle: Handle);

    /// Fills `out` with the bytes at `offset`; true only when all of it was filled.
    fn read(&self, out: &mut [u8], offset: u64, handle: Handle) -> bool;

    /// Appends `data`; true only when all of it was written.
    fn write(&self, data: &[u8], handle: Handle) -> bool;

    /// Creates an output directory path if needed; true when it exists afterwards.
    fn create_path(&self, path: &str) -> bool;
}

impl<B: IoInterface + ?Sized> IoInterface for Box<B> {
    fn open(&mut self, path: &str, access: FileAccess) -> Handle {
        (**self).open(path, access)
    }

    fn filesize(&self, handle: Handle) -> u64 {
        (**self).filesize(handle)
    }

    fn close(&mut self, handle: Handle) {
        (**self).close(handle)
    }

    fn read(&self, out: &mut [u8], offset: u64, handle: Handle) -> bool {
        (**self).read(out, offset, handle)
    }

    fn write(&self, data: &[u8], handle: Handle) -> bool {
        (**self).write(data, handle)
    }

    fn create_path(&self, path: &str) -> bool {
        (**self).create_path(path)
    }
}

/// The single slot through which the engine reaches storage. At most one backend
/// is installed at a time. Every call is checked before it reaches the backend: a
/// missing backend or argument, or an access code that the interface does not
/// define, gives the documented failure answer instead.
pub struct IoBridge<B> {
    backend: Option<B>,
}

impl<B> View for IoBridge<B> {
    type V = Option<B>;

    closed spec fn view(&self) -> Option<B> {
        self.backend
    }
}

impl<B: IoInterface> IoBridge<B> {
    /// A bridge with no backend installed.
    pub fn new() -> (r: Self)
        ensures
            r@ is None,
    {
        IoBridge { backend: None }
    }

    /// Installs a backend in place of the current one, which is handed back.
    pub fn install(&mut self, backend: B) -> (previous: Option<B>)
        ensures
            final(self)@ == Some(backend),
            previous == old(self)@,
    {
        let previous = self.backend.take();
        self.backend = Some(backend);
        previous
    }

    /// Removes the installed backend, if any, and hands it back.
    pub fn reset(&mut self) -> (previous: Option<B>)
        ensures
            final(self)@ is None,
            previous == old(self)@,
    {
        self.backend.take()
    }

    pub fn is_installed(&self) -> (b: bool)
        ensures
            b == self@ is Some,
    {
        self.backend.is_some()
    }

    /// Routes an open. Without a backend or a path, or with an access code that
    /// no mode has, the bridge declines with `HANDLE_FALLBACK`.
    pub fn open(&mut self, path: Option<&str>, access_code: i32) -> (h: Handle)
        ensures
            old(self)@ is None || path is None || FileAccess::spec_from_code(access_code) is None
                ==> h == HANDLE_FALLBACK && final(self)@ == old(self)@,
    {
        match (&mut self.backend, path) {
            (Some(backend), Some(path)) => match FileAccess::from_code(access_code) {
                Some(access) => backend.open(path, access),
                None => HANDLE_FALLBACK,
            },
            _ => HANDLE_FALLBACK,
        }
    }

    /// Routes a size query. Without a backend, or for the error sentinel, the
    /// answer is 0.
    pub fn filesize(&self, handle: Handle) -> (n: u64)
        ensures
            self@ is None || handle == HANDLE_ERROR ==> n == 0,
    {
        match &self.backend {
            Some(backend) => {
                if handle == HANDLE_ERROR {
                    0
                } else {
                    backend.filesize(handle)
                }
            },
            None => 0,
        }
    }

    /// Routes a close. Without a backend, or for the error sentinel, nothing
    /// happens.
    pub fn close(&mut self, handle: Handle)
        ensures
            old(self)@ is None || handle == HANDLE_ERROR ==> final(self)@ == old(self)@,
    {
        if handle != HANDLE_ERROR {
            match &mut self.backend {
                Some(backend) => backend.close(handle),
                None => {},
            }
        }
    }

    /// Routes a read. Without a backend or a buffer, or for the error sentinel,
    /// the read fails and nothing is written.
    pub fn read(&self, out: Option<&mut [u8]>, offset: u64, handle: Handle) -> (ok: bool)
        ensures
            self@ is None || out is None || handle == HANDLE_ERROR ==> !ok,
    {
        match (&self.backend, out) {
            (Some(backend), Some(out)) => {
                if handle == HANDLE_ERROR {
                    false
                } else {
                    backend.read(out, offset, handle)
                }
            },
            _ => false,
        }
    }

    /// Routes a write. Without a backend or data, or for the error sentinel, the
    /// write fails.
    pub fn write(&self, data: Option<&[u8]>, handle: Handle) -> (ok: bool)
        ensures
            self@ is None || data is None || handle == HANDLE_ERROR ==> !ok,
    {
        match (&self.backend, data) {
            (Some(backend), Some(data)) => {
                if handle == HANDLE_ERROR {
                    false
                } else {
                    backend.write(data, handle)
                }
            },
            _ => false,
        }
    }

    /// Routes a path creation. Without a backend or a path, it fails.
    pub fn create_path(&self, path: Option<&str>) -> (ok: bool)
        ensures
            self@ is None || path is None ==> !ok,
    {
        match (&self.backend, path) {
            (Some(backend), Some(path)) => backend.create_path(path),
            _ => false,
        }
    }
}

} // verus!
