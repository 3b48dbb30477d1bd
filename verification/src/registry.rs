//! Handle-based ownership of GPU-side objects.
//!
//! A registry is one handle namespace: an insertion-ordered collection that
//! assigns strictly increasing integer handles, never reuses a handle and
//! never removes an entry.  A handle stays valid for as long as the registry
//! lives, and always resolves to the object it was issued for.

use vstd::prelude::*;

verus! {

/// What a handle resolves to in a registry whose contents are `s`: the entry
/// at index `h`, or nothing for a handle that was never issued.
pub open spec fn resolves_to<T>(s: Seq<T>, h: int) -> Option<T> {
    if 0 <= h < s.len() {
        Some(s[h])
    } else {
        None
    }
}

/// One namespace of GPU objects, owned by handle.
///
/// Handles are indices into the insertion order, so the handle issued for the
/// `k`-th insertion is `k`, strictly greater than every handle issued before.
pub struct ResourceRegistry<T> {
    items: Vec<T>,
}

impl<T> View for ResourceRegistry<T> {
    type V = Seq<T>;

    closed spec fn view(&self) -> Seq<T> {
        self.items@
    }
}

impl<T> ResourceRegistry<T> {
    /// An empty namespace: no handle has been issued yet.
    pub fn new() -> (r: Self)
        ensures
            r@ == Seq::<T>::empty(),
    {
        ResourceRegistry { items: Vec::new() }
    }

    /// How many handles have been issued.
    pub fn len(&self) -> (n: usize)
        ensures
            n == self@.len(),
    {
        self.items.len()
    }

    /// Inserts a newly constructed object and returns a fresh handle,
    /// strictly greater than every handle issued before by this registry.
    pub fn add(&mut self, object: T) -> (handle: usize)
        ensures
            final(self)@ == old(self)@.push(object),
            handle == old(self)@.len(),
    {
        let handle = self.items.len();
        self.items.push(object);
        handle
    }

    /// The only read operation: resolves a handle to the object it was
    /// issued for.  `None` is returned exactly for handles this registry
    /// never issued, which is a caller bug.
    pub fn get(&self, handle: usize) -> (r: Option<&T>)
        ensures
            match r {
                Some(object) => resolves_to(self@, handle as int) == Some(*object),
                None => resolves_to(self@, handle as int) is None,
            },
    {
        if handle < self.items.len() {
            Some(&self.items[handle])
        } else {
            None
        }
    }
}

/// Handles are issued strictly increasing across any run of `add` calls:
/// by `add`'s contract, the `k`-th call of a run that inserts `objects`
/// into contents `pre` finds contents `pre + objects.take(k)` and returns
/// their length as the handle, and those lengths grow strictly along the
/// run.
pub proof fn lemma_handles_strictly_increasing<T>(pre: Seq<T>, objects: Seq<T>, k1: int, k2: int)
    requires
        0 <= k1 < k2 <= objects.len(),
    ensures
        (pre + objects.take(k1)).len() < (pre + objects.take(k2)).len(),
{
}

/// Every handle already issued keeps resolving to its original object, no
/// matter what sequence of objects is added afterwards: growing the contents
/// from `pre` to `pre + added` leaves every issued handle's resolution
/// unchanged.
pub proof fn lemma_issued_handles_persist<T>(pre: Seq<T>, added: Seq<T>, h: int)
    requires
        0 <= h < pre.len(),
    ensures
        resolves_to(pre + added, h) == resolves_to(pre, h),
{
    assert((pre + added)[h] == pre[h]);
}

/// A fresh handle resolves to the object it was issued for: after adding
/// `object` to contents `pre`, the returned handle `pre.len()` resolves to
/// `object`.
pub proof fn lemma_fresh_handle_resolves<T>(pre: Seq<T>, object: T)
    ensures
        resolves_to(pre.push(object), pre.len() as int) == Some(object),
{
}

} // verus!
