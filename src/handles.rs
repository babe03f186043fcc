//! Handle tables: the explicit map from the opaque integer tokens handed to the
//! decoding engine to the live resources they stand for.
//!
//! A token is a plain lookup key, never an address. Tokens are issued in
//! increasing order and never reused, so a token that has been retired can not
//! come to stand for another resource later.

use vstd::prelude::*;
use std::collections::HashMap;

verus! {

broadcast use vstd::std_specs::hash::group_hash_axioms;

/// An opaque token for one open resource, as the decoding engine sees it.
pub type Handle = usize;

/// The token that tells the engine to abort: the request is understood and cannot
/// be satisfied.
pub const HANDLE_ERROR: Handle = 0;

/// The token that tells the engine that this backend declines the path, so that
/// another mechanism may try it.
pub const HANDLE_FALLBACK: Handle = usize::MAX;

/// Whether a token is one of the two sentinels rather than a usable handle.
pub open spec fn is_sentinel(h: Handle) -> bool {
    h == HANDLE_ERROR || h == HANDLE_FALLBACK
}

/// Resources keyed by the handles issued for them.
pub struct HandleTable<R> {
    entries: HashMap<usize, R>,
    next: usize,
}

impl<R> View for HandleTable<R> {
    type V = Map<Handle, R>;

    closed spec fn view(&self) -> Map<Handle, R> {
        self.entries@
    }
}

impl<R> HandleTable<R> {
    /// The handle that the next successful `issue` returns.
    pub closed spec fn next_handle(&self) -> Handle {
        self.next
    }

    /// Every live handle lies strictly between the two sentinels and below the
    /// next handle to be issued.
    pub closed spec fn wf(&self) -> bool {
        &&& 1 <= self.next
        &&& forall|h: Handle| #[trigger] self.entries@.contains_key(h) ==> 1 <= h < self.next
    }

    /// How a table may change over time: handles are only issued upwards, and a
    /// handle below the old `next_handle` is live afterwards only if it was live
    /// before.
    pub open spec fn evolves_to(&self, later: &Self) -> bool {
        &&& self.next_handle() <= later.next_handle()
        &&& forall|h: Handle|
            h < self.next_handle() && #[trigger] later@.contains_key(h) ==> self@.contains_key(h)
    }

    pub fn new() -> (t: Self)
        ensures
            t.wf(),
            t@ == Map::<Handle, R>::empty(),
            t.next_handle() == 1,
    {
        HandleTable { entries: HashMap::new(), next: 1 }
    }

    /// Whether a fresh handle is left: handles run up to just below the
    /// fallback sentinel.
    pub fn has_room(&self) -> (b: bool)
        ensures
            b == (self.next_handle() < HANDLE_FALLBACK),
    {
        self.next < usize::MAX
    }

    /// Registers a resource under a fresh handle.
    pub fn issue(&mut self, r: R) -> (h: Handle)
        requires
            old(self).wf(),
            old(self).next_handle() < HANDLE_FALLBACK,
        ensures
            final(self).wf(),
            old(self).evolves_to(&*final(self)),
            h == old(self).next_handle(),
            !is_sentinel(h),
            !old(self)@.contains_key(h),
            final(self)@ == old(self)@.insert(h, r),
            final(self).next_handle() == h + 1,
    {
        let h = self.next;
        self.entries.insert(h, r);
        self.next = h + 1;
        h
    }

    /// The resource behind a handle, if the handle is live.
    pub fn get(&self, h: Handle) -> (res: Option<&R>)
        ensures
            match res {
                Some(r) => self@.contains_key(h) && *r == self@[h],
                None => !self@.contains_key(h),
            },
    {
        self.entries.get(&h)
    }

    pub fn contains(&self, h: Handle) -> (b: bool)
        ensures
            b == self@.contains_key(h),
    {
        self.entries.contains_key(&h)
    }

    /// Retires a handle and hands back its resource. An unknown or already
    /// retired handle changes nothing and gives `None`.
    pub fn retire(&mut self, h: Handle) -> (res: Option<R>)
        requires
            old(self).wf(),
        ensures
            final(self).wf(),
            old(self).evolves_to(&*final(self)),
            final(self).next_handle() == old(self).next_handle(),
            final(self)@ == old(self)@.remove(h),
            match res {
                Some(r) => {
                    &&& old(self)@.contains_key(h)
                    &&& r == old(self)@[h]
                    &&& 1 <= h < old(self).next_handle()
                },
                None => !old(self)@.contains_key(h) && final(self)@ == old(self)@,
            },
    {
        let res = self.entries.remove(&h);
        proof {
            if res is None {
                assert(self@ =~= old(self)@);
            }
        }
        res
    }
}

impl<R> HandleTable<R> {
    /// Puts a resource back under a handle that was taken out by `retire` in the
    /// same operation.
    pub(crate) fn put_back(&mut self, h: Handle, r: R)
        requires
            old(self).wf(),
            1 <= h < old(self).next_handle(),
            !old(self)@.contains_key(h),
        ensures
            final(self).wf(),
            final(self).next_handle() == old(self).next_handle(),
            final(self)@ == old(self)@.insert(h, r),
    {
        self.entries.insert(h, r);
    }
}

/// A retired handle stays retired: once a handle below the next one to be issued
/// is not live, no later state of the table makes it live again.
pub proof fn retired_handle_stays_retired<R>(
    before: HandleTable<R>,
    after: HandleTable<R>,
    h: Handle,
)
    requires
        before.evolves_to(&after),
        h < before.next_handle(),
        !before@.contains_key(h),
    ensures
        !after@.contains_key(h),
{
}

/// Changes over time compose: a table that evolves to a second one, which evolves
/// to a third, evolves to the third.
pub proof fn evolves_to_transitive<R>(a: HandleTable<R>, b: HandleTable<R>, c: HandleTable<R>)
    requires
        a.evolves_to(&b),
        b.evolves_to(&c),
    ensures
        a.evolves_to(&c),
{
}

} // verus!
