use std::collections::HashMap;
use vstd::prelude::*;

verus! {

broadcast use vstd::std_specs::hash::group_hash_axioms;

/// Map from opaque `u32` handles to owned instances.
///
/// Handles come from a counter that starts at 1 and only grows, so a handle
/// is never issued twice and 0 is never issued at all.
pub struct HandleMap<T> {
    contexts: HashMap<u32, T>,
    next_handle: u32,
}

impl<T> HandleMap<T> {
    /// The instances currently stored, by handle.
    pub closed spec fn view(&self) -> Map<u32, T> {
        self.contexts@
    }

    /// The handle that the next insertion will return.
    pub closed spec fn next(&self) -> nat {
        self.next_handle as nat
    }

    /// Every stored handle was issued before the counter's current value.
    pub closed spec fn wf(&self) -> bool {
        &&& 1 <= self.next_handle
        &&& forall|h: u32| #[trigger] self.contexts@.contains_key(h) ==> 1 <= h < self.next_handle
    }

    pub fn new() -> (r: Self)
        ensures
            r.wf(),
            r@ == Map::<u32, T>::empty(),
            r.next() == 1,
    {
        HandleMap { contexts: HashMap::new(), next_handle: 1 }
    }

    /// Whether another handle can still be issued.
    pub fn has_capacity(&self) -> (r: bool)
        ensures
            r == (self.next() < u32::MAX),
            self.next() <= u32::MAX,
    {
        self.next_handle < u32::MAX
    }

    /// Issue a new unique handle.
    pub fn generate_handle(&mut self) -> (h: u32)
        requires
            old(self).wf(),
            old(self).next() < u32::MAX,
        ensures
            final(self).wf(),
            h as nat == old(self).next(),
            1 <= h,
            final(self).next() == old(self).next() + 1,
            final(self)@ == old(self)@,
            !old(self)@.contains_key(h),
    {
        let h = self.next_handle;
        self.next_handle = self.next_handle + 1;
        h
    }

    /// Store an instance under a fresh handle and return that handle.
    pub fn insert(&mut self, instance: T) -> (h: u32)
        requires
            old(self).wf(),
            old(self).next() < u32::MAX,
        ensures
            final(self).wf(),
            h as nat == old(self).next(),
            1 <= h,
            final(self).next() == old(self).next() + 1,
            !old(self)@.contains_key(h),
            final(self)@ == old(self)@.insert(h, instance),
    {
        let h = self.generate_handle();
        self.contexts.insert(h, instance);
        h
    }

    /// Take an instance out of the map.
    pub fn remove(&mut self, handle: u32) -> (r: Option<T>)
        requires
            old(self).wf(),
        ensures
            final(self).wf(),
            final(self).next() == old(self).next(),
            final(self)@ == old(self)@.remove(handle),
            r == (if old(self)@.contains_key(handle) {
                Some(old(self)@[handle])
            } else {
                None::<T>
            }),
    {
        self.contexts.remove(&handle)
    }

    /// Borrow the instance stored under a handle.
    pub fn get(&self, handle: u32) -> (r: Option<&T>)
        ensures
            r == (if self@.contains_key(handle) {
                Some(&self@[handle])
            } else {
                None::<&T>
            }),
    {
        self.contexts.get(&handle)
    }

    /// Replace the instance stored under `handle` by what `f` makes of it,
    /// and return `f`'s second result; `None` (and `f` is not run) when the
    /// handle is absent. `f` owns the instance while it runs.
    pub fn with_instance_mut<F, R>(&mut self, handle: u32, f: F) -> (r: Option<R>)
        where
            F: FnOnce(T) -> (T, R),
        requires
            old(self).wf(),
            old(self)@.contains_key(handle) ==> f.requires((old(self)@[handle],)),
        ensures
            final(self).wf(),
            final(self).next() == old(self).next(),
            old(self)@.contains_key(handle) <==> r is Some,
            r is None ==> final(self)@ == old(self)@,
            r matches Some(v) ==> exists|t: T|
                #[trigger] f.ensures((old(self)@[handle],), (t, v))
                    && final(self)@ == old(self)@.insert(handle, t),
    {
        match self.contexts.remove(&handle) {
            Some(instance) => {
                let ghost before = old(self)@;
                let (updated, r) = f(instance);
                self.contexts.insert(handle, updated);
                assert(self.contexts@ =~= before.insert(handle, updated));
                let res = Some(r);
                assert(res matches Some(v) ==> exists|t: T|
                    #[trigger] f.ensures((old(self)@[handle],), (t, v))
                        && self@ == old(self)@.insert(handle, t)) by {
                    assert(f.ensures((old(self)@[handle],), (updated, res->0)));
                }
                res
            },
            None => None,
        }
    }

    /// Run `f` on the instance stored under `handle`; `None` (and `f` is not
    /// run) when the handle is absent.
    pub fn with_instance<F, R>(&self, handle: u32, f: F) -> (r: Option<R>)
        where
            F: FnOnce(&T) -> R,
        requires
            self@.contains_key(handle) ==> f.requires((&self@[handle],)),
        ensures
            self@.contains_key(handle) <==> r is Some,
            r matches Some(v) ==> f.ensures((&self@[handle],), v),
    {
        match self.contexts.get(&handle) {
            Some(instance) => Some(f(instance)),
            None => None,
        }
    }

    /// Whether a handle is currently stored.
    pub fn contains(&self, handle: u32) -> (r: bool)
        ensures
            r == self@.contains_key(handle),
    {
        self.contexts.contains_key(&handle)
    }
}

impl<T> Default for HandleMap<T> {
    fn default() -> (r: Self)
        ensures
            r.wf(),
            r@ == Map::<u32, T>::empty(),
            r.next() == 1,
    {
        HandleMap::new()
    }
}

/// Handles from successive insertions are distinct and increasing: an
/// insertion returns the counter's value and raises it by one, so an
/// insertion made after another returns a larger handle, and no handle it
/// returns is already stored.
pub proof fn lemma_successive_handles_increase<T>(m: HandleMap<T>, first: u32, m2: HandleMap<T>, second: u32)
    requires
        m.wf(),
        first as nat == m.next(),
        m2.next() >= m.next() + 1,
        second as nat == m2.next(),
    ensures
        first < second,
        !m@.contains_key(first),
        forall|h: u32| #[trigger] m@.contains_key(h) ==> h < first,
{
}

/// After `remove(h)` the handle is absent, and since every later insertion
/// returns a handle at or above the counter, which is already above `h`, no
/// insertion returns `h` again.
pub proof fn lemma_removed_handle_not_reissued<T>(m: HandleMap<T>, h: u32)
    requires
        m.wf(),
        m@.contains_key(h),
    ensures
        !m@.remove(h).contains_key(h),
        (h as nat) < m.next(),
{
}

/// What `with_instance_mut` stores under a handle is what `with_instance`
/// then reads there.
pub proof fn lemma_update_is_observed<T>(m: Map<u32, T>, h: u32, t: T)
    ensures
        m.insert(h, t).contains_key(h),
        m.insert(h, t)[h] == t,
{
}

} // verus!
