//! A read-only storage backend over named, pre-registered byte buffers.
//!
//! Paths are looked up by exact name. Every `open` of a name gets a handle of its
//! own onto the entry's shared data, and closes independently of the others.
//! Replacing an entry later changes what new opens see, not what open handles read.

use vstd::prelude::*;
use std::sync::Arc;
use crate::handles::{Handle, HandleTable, HANDLE_ERROR, HANDLE_FALLBACK, is_sentinel};
use crate::io::{FileAccess, IoInterface};

verus! {

/// The entries that registering `items` in order gives: a later item of the same
/// name replaces an earlier one.
pub open spec fn entries_of(items: Seq<(String, Vec<u8>)>) -> Map<Seq<char>, Seq<u8>>
    decreases items.len(),
{
    if items.len() == 0 {
        Map::empty()
    } else {
        entries_of(items.drop_last()).insert(items.last().0@, items.last().1@)
    }
}

struct NamedEntry {
    name: String,
    data: Arc<Vec<u8>>,
}

struct StreamTable {
    entries: Vec<NamedEntry>,
    names: Ghost<Map<Seq<char>, Seq<u8>>>,
    handles: HandleTable<Arc<Vec<u8>>>,
}

impl StreamTable {
    /// The registered entries: each name with its bytes.
    spec fn entries(&self) -> Map<Seq<char>, Seq<u8>> {
        self.names@
    }

    /// The open handles, each with the bytes it reads.
    spec fn streams(&self) -> Map<Handle, Seq<u8>> {
        Map::new(|h: Handle| self.handles@.contains_key(h), |h: Handle| self.handles@[h]@)
    }

    /// The handle that the next successful `open` returns.
    spec fn next_handle(&self) -> Handle {
        self.handles.next_handle()
    }

    spec fn wf(&self) -> bool {
        &&& self.handles.wf()
        &&& forall|i: int, j: int|
            0 <= i < self.entries.len() && 0 <= j < self.entries.len() && i != j
                ==> #[trigger] self.entries[i].name@ != #[trigger] self.entries[j].name@
        &&& forall|i: int|
            0 <= i < self.entries.len() ==> {
                &&& #[trigger] self.names@.contains_key(self.entries[i].name@)
                &&& self.names@[self.entries[i].name@] == self.entries[i].data@
            }
        &&& forall|n: Seq<char>|
            #[trigger] self.names@.contains_key(n) ==> exists|i: int|
                0 <= i < self.entries.len() && self.entries[i].name@ == n
    }

    /// A backend with no entries and no open handles.
    fn new() -> (r: Self)
        ensures
            r.wf(),
            r.entries() == Map::<Seq<char>, Seq<u8>>::empty(),
            r.streams() == Map::<Handle, Seq<u8>>::empty(),
            r.next_handle() == 1,
    {
        let r = StreamTable {
            entries: Vec::new(),
            names: Ghost(Map::empty()),
            handles: HandleTable::new(),
        };
        assert(r.streams() =~= Map::<Handle, Seq<u8>>::empty());
        r
    }

    /// The position of the entry named `name`, if there is one.
    fn find(&self, name: &String) -> (res: Option<usize>)
        requires
            self.wf(),
        ensures
            match res {
                Some(i) => i < self.entries.len() && self.entries[i as int].name@ == name@,
                None => !self.entries().contains_key(name@),
            },
    {
        let mut i: usize = 0;
        while i < self.entries.len()
            invariant
                self.wf(),
                i <= self.entries.len(),
                forall|k: int| 0 <= k < i ==> self.entries[k].name@ != name@,
            decreases self.entries.len() - i,
        {
            if self.entries[i].name == *name {
                return Some(i);
            }
            i = i + 1;
        }
        None
    }

    /// Registers `data` under `name`, replacing any entry of that name. Open
    /// handles keep reading what they opened.
    fn insert(&mut self, name: &str, data: Vec<u8>)
        requires
            old(self).wf(),
        ensures
            final(self).wf(),
            final(self).entries() == old(self).entries().insert(name@, data@),
            final(self).streams() == old(self).streams(),
            final(self).next_handle() == old(self).next_handle(),
    {
        let name = name.to_owned();
        let ghost key = name@;
        let ghost bytes = data@;
        let entry = NamedEntry { name: name.clone(), data: Arc::new(data) };
        assert(entry.name@ == key && entry.data@ == bytes);
        let ghost at: int;
        match self.find(&name) {
            Some(i) => {
                self.entries.set(i, entry);
                proof {
                    at = i as int;
                }
            },
            None => {
                self.entries.push(entry);
                proof {
                    at = old(self).entries.len() as int;
                }
            },
        }
        self.names = Ghost(self.names@.insert(key, bytes));
        proof {
            let n = self.entries.len() as int;
            assert(0 <= at < n && self.entries[at].name@ == key && self.entries[at].data@ == bytes);
            assert forall|i: int| 0 <= i < n && i != at implies #[trigger] self.entries[i]
                == old(self).entries[i] by {}
            assert forall|i: int| 0 <= i < n implies {
                &&& #[trigger] self.names@.contains_key(self.entries[i].name@)
                &&& self.names@[self.entries[i].name@] == self.entries[i].data@
            } by {
                if i != at {
                    assert(self.entries[i] == old(self).entries[i]);
                    assert(old(self).names@.contains_key(old(self).entries[i].name@));
                    if at < old(self).entries.len() {
                        assert(old(self).entries[at].name@ == key);
                        assert(old(self).entries[i].name@ != old(self).entries[at].name@);
                    }
                    assert(old(self).entries[i].name@ != key);
                }
            }
            assert forall|m: Seq<char>| #[trigger] self.names@.contains_key(m) implies exists|i: int|
                0 <= i < n && self.entries[i].name@ == m by {
                if m != key {
                    let i = choose|i: int|
                        0 <= i < old(self).entries.len() && old(self).entries[i].name@ == m;
                    assert(self.entries[i] == old(self).entries[i]);
                } else {
                    assert(self.entries[at].name@ == m);
                }
            }
        }
    }

    /// Registers each named buffer in turn; a later entry of the same name
    /// replaces an earlier one.
    fn from_iter(items: Vec<(String, Vec<u8>)>) -> (r: StreamTable)
        ensures
            r.wf(),
            r.entries() == entries_of(items@),
            r.streams() == Map::<Handle, Seq<u8>>::empty(),
            r.next_handle() == 1,
    {
        let mut r = StreamTable::new();
        let mut items = items;
        let ghost all = items@;
        let ghost n = all.len() as int;
        assert(entries_of(all.take(0)) =~= Map::<Seq<char>, Seq<u8>>::empty());
        while items.len() > 0
            invariant
                r.wf(),
                n == all.len(),
                items@ == all.skip(n - items.len()),
                items.len() <= n,
                r.entries() == entries_of(all.take(n - items.len())),
                r.streams() == Map::<Handle, Seq<u8>>::empty(),
                r.next_handle() == 1,
            decreases items.len(),
        {
            let ghost k = n - items.len();
            assert(0 <= k < n && items@[0] == all[k]);
            let item = items.remove(0);
            let (name, data) = item;
            proof {
                assert(all[k] == item);
                assert(all.take(k + 1).drop_last() =~= all.take(k));
                assert(items@ =~= all.skip(k + 1));
            }
            r.insert(name.as_str(), data);
        }
        assert(all.take(n) =~= all);
        r
    }

    /// Opens a registered entry for reading. Write access is declined with
    /// `HANDLE_FALLBACK`, since this backend never writes; a name that is not
    /// registered gives `HANDLE_ERROR`, and so does a table that has no fresh
    /// handle left.
    fn open(&mut self, path: &str, access: FileAccess) -> (h: Handle)
        requires
            old(self).wf(),
        ensures
            final(self).wf(),
            final(self).entries() == old(self).entries(),
            final(self).next_handle() >= old(self).next_handle(),
            access == FileAccess::Write ==> h == HANDLE_FALLBACK,
            access == FileAccess::Read && !old(self).entries().contains_key(path@) ==> h
                == HANDLE_ERROR,
            access == FileAccess::Read && old(self).entries().contains_key(path@)
                && old(self).next_handle() < HANDLE_FALLBACK ==> {
                &&& h == old(self).next_handle()
                &&& !is_sentinel(h)
                &&& !old(self).streams().contains_key(h)
                &&& final(self).streams() == old(self).streams().insert(
                    h,
                    old(self).entries()[path@],
                )
            },
            access == FileAccess::Read && old(self).next_handle() == HANDLE_FALLBACK ==> h
                == HANDLE_ERROR,
            is_sentinel(h) ==> final(self).streams() == old(self).streams()
                && final(self).next_handle() == old(self).next_handle(),
            !is_sentinel(h) ==> final(self).next_handle() == h + 1,
    {
        if access == FileAccess::Write {
            return HANDLE_FALLBACK;
        }
        let name = path.to_owned();
        match self.find(&name) {
            None => HANDLE_ERROR,
            Some(i) => {
                if !self.handles.has_room() {
                    return HANDLE_ERROR;
                }
                assert(self.names@.contains_key(self.entries[i as int].name@));
                let data = self.entries[i].data.clone();
                assert(data@ == old(self).entries()[path@]);
                let h = self.handles.issue(data);
                assert(self.entries == old(self).entries);
                assert(self.names == old(self).names);
                assert(self.handles.wf());
                proof {
                    assert(self.streams() =~= old(self).streams().insert(h, old(self).entries()[path@]));
                }
                h
            },
        }
    }

    /// The length of the entry behind a handle; 0 for a handle that is not open.
    fn filesize(&self, handle: Handle) -> (n: u64)
        requires
            self.wf(),
        ensures
            n == if self.streams().contains_key(handle) {
                self.streams()[handle].len()
            } else {
                0
            },
    {
        match self.handles.get(handle) {
            Some(data) => data.len() as u64,
            None => 0,
        }
    }

    /// Closes a handle. An unknown or already closed handle changes nothing, and
    /// no other handle is touched either way.
    fn close(&mut self, handle: Handle)
        requires
            old(self).wf(),
        ensures
            final(self).wf(),
            final(self).entries() == old(self).entries(),
            final(self).next_handle() == old(self).next_handle(),
            final(self).streams() == old(self).streams().remove(handle),
            !old(self).streams().contains_key(handle) ==> final(self).streams() == old(self).streams(),
    {
        let _ = self.handles.retire(handle);
        assert(self.entries == old(self).entries);
        assert(self.names == old(self).names);
        assert(self.streams() =~= old(self).streams().remove(handle));
    }

    /// Reads exactly `out.len()` bytes at `offset`. The read succeeds only when the
    /// handle is open and the whole range lies within its entry; otherwise it
    /// fails and `out` is left as it was, never partly filled.
    fn read(&self, out: &mut [u8], offset: u64, handle: Handle) -> (ok: bool)
        requires
            self.wf(),
        ensures
            ok == (self.streams().contains_key(handle) && offset + old(out)@.len()
                <= self.streams()[handle].len()),
            ok ==> final(out)@ == self.streams()[handle].subrange(
                offset as int,
                offset + old(out)@.len(),
            ),
            !ok ==> final(out)@ == old(out)@,
    {
        let data = match self.handles.get(handle) {
            Some(data) => data,
            None => return false,
        };
        let size = data.len() as u64;
        let len = out.len() as u64;
        if offset > size || size - offset < len {
            return false;
        }
        assert(offset + old(out)@.len() <= data@.len());
        let start = offset as usize;
        assert(start + out.len() <= data.len());
        let mut i: usize = 0;
        while i < out.len()
            invariant
                start + out.len() <= data.len(),
                i <= out.len(),
                out@.len() == old(out)@.len(),
                forall|k: int| 0 <= k < i ==> out@[k] == data@[start + k],
            decreases out.len() - i,
        {
            out[i] = data[start + i];
            i = i + 1;
        }
        assert(out@ =~= data@.subrange(offset as int, offset + old(out)@.len()));
        true
    }
}

/// The named-stream backend.
pub struct StreamIo {
    table: StreamTable,
}

impl StreamIo {
    #[verifier::type_invariant]
    spec fn inv(self) -> bool {
        self.table.wf()
    }

    /// The registered entries: each name with its bytes.
    pub closed spec fn entries(&self) -> Map<Seq<char>, Seq<u8>> {
        self.table.entries()
    }

    /// The open handles, each with the bytes it reads.
    pub closed spec fn streams(&self) -> Map<Handle, Seq<u8>> {
        self.table.streams()
    }

    /// The handle that the next successful `open` returns.
    pub closed spec fn next_handle(&self) -> Handle {
        self.table.next_handle()
    }

    /// A backend with no entries and no open handles.
    pub fn new() -> (r: Self)
        ensures
            r.entries() == Map::<Seq<char>, Seq<u8>>::empty(),
            r.streams() == Map::<Handle, Seq<u8>>::empty(),
            r.next_handle() == 1,
    {
        StreamIo { table: StreamTable::new() }
    }

    /// Registers each named buffer in turn; a later entry of the same name
    /// replaces an earlier one.
    pub fn from_iter(items: Vec<(String, Vec<u8>)>) -> (r: Self)
        ensures
            r.entries() == entries_of(items@),
            r.streams() == Map::<Handle, Seq<u8>>::empty(),
            r.next_handle() == 1,
    {
        StreamIo { table: StreamTable::from_iter(items) }
    }

    /// Registers `data` under `name`, replacing any entry of that name. Open
    /// handles keep reading what they opened.
    pub fn insert(&mut self, name: &str, data: Vec<u8>)
        ensures
            final(self).entries() == old(self).entries().insert(name@, data@),
            final(self).streams() == old(self).streams(),
            final(self).next_handle() == old(self).next_handle(),
    {
        proof {
            use_type_invariant(&*self);
        }
        let mut t = StreamTable::new();
        std::mem::swap(&mut t, &mut self.table);
        t.insert(name, data);
        self.table = t;
    }

    /// Opens a registered entry for reading. Write access is declined with
    /// `HANDLE_FALLBACK`, since this backend never writes; a name that is not
    /// registered gives `HANDLE_ERROR`, and so does a table that has no fresh
    /// handle left.
    pub fn open(&mut self, path: &str, access: FileAccess) -> (h: Handle)
        ensures
            final(self).entries() == old(self).entries(),
            final(self).next_handle() >= old(self).next_handle(),
            access == FileAccess::Write ==> h == HANDLE_FALLBACK,
            access == FileAccess::Read && !old(self).entries().contains_key(path@) ==> h
                == HANDLE_ERROR,
            access == FileAccess::Read && old(self).entries().contains_key(path@)
                && old(self).next_handle() < HANDLE_FALLBACK ==> {
                &&& h == old(self).next_handle()
                &&& !is_sentinel(h)
                &&& !old(self).streams().contains_key(h)
                &&& final(self).streams() == old(self).streams().insert(
                    h,
                    old(self).entries()[path@],
                )
            },
            access == FileAccess::Read && old(self).next_handle() == HANDLE_FALLBACK ==> h
                == HANDLE_ERROR,
            is_sentinel(h) ==> final(self).streams() == old(self).streams()
                && final(self).next_handle() == old(self).next_handle(),
            !is_sentinel(h) ==> final(self).next_handle() == h + 1,
    {
        proof {
            use_type_invariant(&*self);
        }
        let mut t = StreamTable::new();
        std::mem::swap(&mut t, &mut self.table);
        let h = t.open(path, access);
        self.table = t;
        h
    }

    /// The length of the entry behind a handle; 0 for a handle that is not open.
    pub fn filesize(&self, handle: Handle) -> (n: u64)
        ensures
            n == if self.streams().contains_key(handle) {
                self.streams()[handle].len()
            } else {
                0
            },
    {
        proof {
            use_type_invariant(self);
        }
        self.table.filesize(handle)
    }

    /// Closes a handle. An unknown or already closed handle changes nothing, and
    /// no other handle is touched either way.
    pub fn close(&mut self, handle: Handle)
        ensures
            final(self).entries() == old(self).entries(),
            final(self).next_handle() == old(self).next_handle(),
            final(self).streams() == old(self).streams().remove(handle),
            !old(self).streams().contains_key(handle) ==> final(self).streams() == old(self).streams(),
    {
        proof {
            use_type_invariant(&*self);
        }
        let mut t = StreamTable::new();
        std::mem::swap(&mut t, &mut self.table);
        t.close(handle);
        self.table = t;
    }

    /// Reads exactly `out.len()` bytes at `offset`. The read succeeds only when the
    /// handle is open and the whole range lies within its entry; otherwise it
    /// fails and `out` is left as it was, never partly filled.
    pub fn read(&self, out: &mut [u8], offset: u64, handle: Handle) -> (ok: bool)
        ensures
            ok == (self.streams().contains_key(handle) && offset + old(out)@.len()
                <= self.streams()[handle].len()),
            ok ==> final(out)@ == self.streams()[handle].subrange(
                offset as int,
                offset + old(out)@.len(),
            ),
            !ok ==> final(out)@ == old(out)@,
    {
        proof {
            use_type_invariant(self);
        }
        self.table.read(out, offset, handle)
    }

    /// This backend never writes.
    pub fn write(&self, data: &[u8], handle: Handle) -> (ok: bool)
        ensures
            !ok,
    {
        false
    }

    /// This backend creates no paths.
    pub fn create_path(&self, path: &str) -> (ok: bool)
        ensures
            !ok,
    {
        false
    }
}

impl IoInterface for StreamIo {
    fn open(&mut self, path: &str, access: FileAccess) -> Handle {
        StreamIo::open(self, path, access)
    }

    fn filesize(&self, handle: Handle) -> u64 {
        StreamIo::filesize(self, handle)
    }

    fn close(&mut self, handle: Handle) {
        StreamIo::close(self, handle)
    }

    fn read(&self, out: &mut [u8], offset: u64, handle: Handle) -> bool {
        StreamIo::read(self, out, offset, handle)
    }

    fn write(&self, data: &[u8], handle: Handle) -> bool {
        StreamIo::write(self, data, handle)
    }

    fn create_path(&self, path: &str) -> bool {
        StreamIo::create_path(self, path)
    }
}

} // verus!
