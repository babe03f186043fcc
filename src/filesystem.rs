//! The bookkeeping and the decisions of the backend over the real filesystem.
//! The operating-system calls themselves are made by the caller, which hands
//! their outcomes in as plain values.

use vstd::prelude::*;
use crate::handles::{Handle, HandleTable, HANDLE_ERROR, HANDLE_FALLBACK, is_sentinel};

verus! {

/// How an operating-system call on a path failed, as far as the backend cares.
#[derive(Clone, Copy, Debug, PartialEq, Eq, Structural)]
pub enum OsFailure {
    NotFound,
    AlreadyExists,
    Other,
}

/// What came of asking the operating system to open a file.
pub enum OpenOutcome<F> {
    /// The file is open and positioned at its start.
    Opened(F),
    /// The file opened but could not be positioned at its start.
    Unpositioned,
    /// The file did not open.
    Failed(OsFailure),
}

/// The handle that an open gives when no file is registered: abort when the file
/// is absent or unusable, defer to another mechanism on any other failure.
pub open spec fn failed_open_handle(failure: OsFailure) -> Handle {
    if failure == OsFailure::NotFound {
        HANDLE_ERROR
    } else {
        HANDLE_FALLBACK
    }
}

/// The open files of the filesystem backend, each under its own handle.
pub struct FilesystemIo<F> {
    files: HandleTable<F>,
}

impl<F> FilesystemIo<F> {
    #[verifier::type_invariant]
    spec fn inv(self) -> bool {
        self.files.wf()
    }

    /// The open files by handle.
    pub closed spec fn files(&self) -> Map<Handle, F> {
        self.files@
    }

    /// The handle that the next registered file gets.
    pub closed spec fn next_handle(&self) -> Handle {
        self.files.next_handle()
    }

    pub fn new() -> (r: Self)
        ensures
            r.files() == Map::<Handle, F>::empty(),
            r.next_handle() == 1,
    {
        FilesystemIo { files: HandleTable::new() }
    }

    /// Turns the outcome of an open into the handle the engine gets. An opened
    /// file is registered under a fresh handle, or, when no handle is left,
    /// dropped with `HANDLE_ERROR`. A file that opened but could not be positioned
    /// gives `HANDLE_ERROR`; a failed open gives `HANDLE_ERROR` when the file was
    /// not found and `HANDLE_FALLBACK` otherwise.
    pub fn register_open(&mut self, outcome: OpenOutcome<F>) -> (h: Handle)
        ensures
            final(self).next_handle() == if outcome is Opened && old(self).next_handle()
                < HANDLE_FALLBACK {
                old(self).next_handle() + 1
            } else {
                old(self).next_handle() as int
            },
            match outcome {
                OpenOutcome::Opened(f) => if old(self).next_handle() < HANDLE_FALLBACK {
                    &&& h == old(self).next_handle()
                    &&& !is_sentinel(h)
                    &&& !old(self).files().contains_key(h)
                    &&& final(self).files() == old(self).files().insert(h, f)
                } else {
                    h == HANDLE_ERROR && final(self).files() == old(self).files()
                },
                OpenOutcome::Unpositioned => h == HANDLE_ERROR && final(self).files()
                    == old(self).files(),
                OpenOutcome::Failed(failure) => h == failed_open_handle(failure)
                    && final(self).files() == old(self).files(),
            },
    {
        proof {
            use_type_invariant(&*self);
        }
        match outcome {
            OpenOutcome::Opened(f) => {
                if !self.files.has_room() {
                    return HANDLE_ERROR;
                }
                let mut t = HandleTable::new();
                std::mem::swap(&mut t, &mut self.files);
                let h = t.issue(f);
                self.files = t;
                h
            },
            OpenOutcome::Unpositioned => HANDLE_ERROR,
            OpenOutcome::Failed(failure) => {
                if failure == OsFailure::NotFound {
                    HANDLE_ERROR
                } else {
                    HANDLE_FALLBACK
                }
            },
        }
    }

    /// The file behind a handle, if the handle is open.
    pub fn file(&self, handle: Handle) -> (f: Option<&F>)
        ensures
            match f {
                Some(f) => self.files().contains_key(handle) && *f == self.files()[handle],
                None => !self.files().contains_key(handle),
            },
    {
        self.files.get(handle)
    }

    /// Closes a handle and hands back its file, to be dropped by the caller. An
    /// unknown or already closed handle changes nothing, and no other handle is
    /// touched either way.
    pub fn close(&mut self, handle: Handle) -> (f: Option<F>)
        ensures
            final(self).next_handle() == old(self).next_handle(),
            final(self).files() == old(self).files().remove(handle),
            match f {
                Some(f) => old(self).files().contains_key(handle) && f == old(self).files()[handle],
                None => !old(self).files().contains_key(handle) && final(self).files()
                    == old(self).files(),
            },
    {
        proof {
            use_type_invariant(&*self);
        }
        let mut t = HandleTable::new();
        std::mem::swap(&mut t, &mut self.files);
        let f = t.retire(handle);
        self.files = t;
        f
    }
}

/// Whether a path creation succeeded: it did when the directories were created,
/// and when they already existed.
pub fn path_created(outcome: Result<(), OsFailure>) -> (ok: bool)
    ensures
        ok == (outcome is Ok || outcome == Err::<(), OsFailure>(OsFailure::AlreadyExists)),
{
    match outcome {
        Ok(()) => true,
        Err(failure) => failure == OsFailure::AlreadyExists,
    }
}

/// What one call of the operating system's read gave.
#[derive(Clone, Copy, Debug, PartialEq, Eq, Structural)]
pub enum ReadEvent {
    /// Some bytes, at least one, arrived.
    Got(usize),
    /// The data ended.
    EndOfData,
    /// The read failed.
    Failed,
}

/// What to do next while filling a buffer.
#[derive(Clone, Copy, Debug, PartialEq, Eq, Structural)]
pub enum ReadStep {
    /// Read on; this many bytes are filled now.
    More(usize),
    /// Stop; whether the whole buffer was filled.
    Done(bool),
}

/// One step of filling a buffer of `wanted` bytes of which `filled` are filled.
/// A read succeeds only when it fills the whole buffer: the end of the data or
/// a failure before that ends it unsuccessfully.
pub fn read_step(filled: usize, wanted: usize, event: ReadEvent) -> (step: ReadStep)
    requires
        filled < wanted,
        event matches ReadEvent::Got(n) ==> 0 < n <= wanted - filled,
    ensures
        match event {
            ReadEvent::Got(n) => if filled + n == wanted {
                step == ReadStep::Done(true)
            } else {
                step == ReadStep::More((filled + n) as usize)
            },
            _ => step == ReadStep::Done(false),
        },
{
    match event {
        ReadEvent::Got(n) => {
            let now = filled + n;
            if now == wanted {
                ReadStep::Done(true)
            } else {
                ReadStep::More(now)
            }
        },
        _ => ReadStep::Done(false),
    }
}

} // verus!
