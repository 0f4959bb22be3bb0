//! A single mutable memory slot behind a handle.
//!
//! A [`Ptr`] owns one slot that can hold a value of type `T`. The slot starts
//! out unmaterialized: no value exists until the first access, at which point
//! a default value of `T` is constructed exactly once. Reads and writes go
//! through the handle, which takes the slot's state from `None` (not yet
//! materialized) to `Some` (holding a value) and never back.

use vstd::prelude::*;

verus! {

/// A handle that owns a single lazily materialized slot for a `T`.
///
/// The slot's abstract state is an `Option<T>`: `None` before the first
/// access, `Some(v)` once a value has been materialized or stored. Exclusive
/// access through `&mut self` serializes every read and write, so no two
/// accesses can race on the slot.
pub struct Ptr<T> {
    slot: Option<T>,
}

impl<T> View for Ptr<T> {
    type V = Option<T>;

    closed spec fn view(&self) -> Option<T> {
        self.slot
    }
}

/// Holds when `v` is a value that `T::default()` may return.
pub open spec fn is_default_value<T: Default>(v: T) -> bool {
    call_ensures(T::default, (), v)
}

/// The slot's state after storing `v`, whatever it held before.
pub open spec fn stored<T>(pre: Option<T>, v: T) -> Option<T> {
    Some(v)
}

/// Relates the slot's state before an access to its state once the access
/// has materialized a value: an already held value is kept unchanged, and an
/// empty slot gets filled with a value that `T::default()` returned.
pub open spec fn materializes<T: Default>(pre: Option<T>, post: Option<T>) -> bool {
    match pre {
        Some(v) => post == Some(v),
        None => post is Some && is_default_value(post->0),
    }
}

impl<T: Default> Ptr<T> {
    /// Creates a handle whose slot holds nothing yet: no value is
    /// constructed and nothing is allocated until the first access.
    pub fn new() -> (p: Ptr<T>)
        ensures
            p@ is None,
    {
        Ptr { slot: None }
    }

    /// Stores `value` in the slot, replacing whatever it held.
    pub fn set(&mut self, value: T)
        ensures
            final(self)@ == stored(old(self)@, value),
    {
        self.slot = Some(value);
    }

    /// Returns a copy of the slot's current value, materializing a default
    /// value first if the slot was still empty. The slot itself is left
    /// holding the value that was read.
    pub fn get(&mut self) -> (v: T) where
        T: Clone,
        ensures
            materializes(old(self)@, final(self)@),
            final(self)@ is Some,
            cloned(final(self)@->0, v),
    {
        if self.slot.is_none() {
            self.slot = Some(T::default());
        }
        match &self.slot {
            Some(x) => x.clone(),
            None => vstd::pervasive::unreached(),
        }
    }

    /// Materializes the slot if it was still empty and returns a mutable
    /// borrow of its value. The caller may read or write through the borrow
    /// for as long as it lives; writing `v` through it leaves the handle in
    /// exactly the state that `set(v)` produces.
    pub fn get_ref(&mut self) -> (r: &mut T)
        ensures
            materializes(old(self)@, Some(*r)),
            final(self)@ == stored(old(self)@, *final(r)),
    {
        if self.slot.is_none() {
            self.slot = Some(T::default());
        }
        match &mut self.slot {
            Some(x) => x,
            None => vstd::pervasive::unreached(),
        }
    }
}

/// One observable transition of the slot: some value gets stored in it, or
/// an access materializes it.
pub open spec fn step<T: Default>(pre: Option<T>, post: Option<T>) -> bool {
    (exists|v: T| post == stored(pre, v)) || materializes(pre, post)
}

/// A read that follows `set(v2)` observes `v2` and nothing else, whatever
/// the slot held before the store: a borrow handed out by `get_ref` then
/// shows exactly `v2`, and a copy handed out by `get` is `v2` up to `T`'s
/// own `clone` (exactly `v2` for every type whose `clone` returns its
/// argument, as every primitive's does).
pub proof fn lemma_read_after_set<T: Default + Clone>(
    pre: Option<T>,
    v2: T,
    borrowed: T,
    copied: T,
)
    requires
        materializes(stored(pre, v2), Some(borrowed)),
        cloned(stored(pre, v2)->0, copied),
    ensures
        borrowed == v2,
        cloned(v2, copied),
{
}

/// Writing `v2` through the borrow returned by `get_ref` is observably the
/// same as calling `set(v2)`: both leave the handle holding exactly `v2`,
/// whatever each handle held before.
pub proof fn lemma_borrow_write_is_set<T: Default>(
    pre_borrow: Option<T>,
    pre_set: Option<T>,
    v2: T,
)
    ensures
        stored(pre_borrow, v2) == stored(pre_set, v2),
{
}

/// Materialization happens at most once: the first access to an empty slot
/// fills it with a value that `T::default()` returned, and every later
/// access finds the slot materialized and leaves its value unchanged, so
/// every reader before the first store observes that same default value.
pub proof fn lemma_materialize_once<T: Default>(mid: Option<T>, post: Option<T>)
    requires
        materializes(None::<T>, mid),
        materializes(mid, post),
    ensures
        mid is Some && is_default_value(mid->0),
        post == mid,
{
}

/// A materialized slot never returns to the empty state: every operation on
/// the handle leaves the slot holding a value.
pub proof fn lemma_materialized_is_terminal<T: Default>(pre: Option<T>, post: Option<T>)
    requires
        step(pre, post),
    ensures
        post is Some,
{
}

} // verus!
