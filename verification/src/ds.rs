//! A slot from which a value can be moved out and later moved back.
//!
//! `Detach` works around single-ownership borrowing restrictions: the value is
//! taken out together with a caller-supplied key, carried around as a
//! `Detached`, and reattached later. Accessing the slot while the value is
//! absent is a programming error, so those operations require a present value.

use vstd::prelude::*;

verus! {

/// A slot holding a value that can be temporarily moved out.
pub struct Detach<T> {
    val: Option<T>,
}

/// A value moved out of a [`Detach`], tagged with the key it was taken with.
pub struct Detached<K, T> {
    key: K,
    val: T,
}

impl<T: Clone> Clone for Detach<T> {
    fn clone(&self) -> Self {
        if let Some(t) = &self.val {
            Detach { val: Some(t.clone()) }
        } else {
            Detach { val: None }
        }
    }
}

impl<T> Detach<T> {
    /// The value currently held by the slot, if any.
    pub closed spec fn inner(&self) -> Option<T> {
        self.val
    }

    /// A new slot holding `val`.
    pub fn new(val: T) -> (r: Self)
        ensures
            r.inner() == Some(val),
    {
        Detach { val: Some(val) }
    }

    /// No data contained.
    pub fn is_detached(&self) -> (r: bool)
        ensures
            r == self.inner().is_none(),
    {
        self.val.is_none()
    }

    /// Moves the value out, tagged with `key` for reattaching.
    pub fn detach<K: Copy>(&mut self, key: K) -> (r: Detached<K, T>)
        requires
            old(self).inner() is Some,
        ensures
            final(self).inner() is None,
            r.key_spec() == key,
            Some(r.value_spec()) == old(self).inner(),
    {
        let val = self.val.take().unwrap();
        Detached { key, val }
    }

    /// Moves a detached value back in; a value already present is replaced.
    pub fn attach<K: Copy>(&mut self, detached: Detached<K, T>)
        ensures
            final(self).inner() == Some(detached.value_spec()),
    {
        self.val = Some(detached.val);
    }

    /// A reference to the held value.
    pub fn as_ref(&self) -> (r: &T)
        requires
            self.inner() is Some,
        ensures
            Some(*r) == self.inner(),
    {
        self.val.as_ref().unwrap()
    }

    /// A mutable reference to the held value.
    pub fn as_mut(&mut self) -> (r: &mut T)
        requires
            old(self).inner() is Some,
        ensures
            Some(*r) == old(self).inner(),
            final(self).inner() == Some(*final(r)),
    {
        match &mut self.val {
            Some(v) => v,
            None => unreached(),
        }
    }

    /// Dissolves the slot and hands the value out.
    pub fn take(self) -> (r: T)
        requires
            self.inner() is Some,
        ensures
            Some(r) == self.inner(),
    {
        match self.val {
            Some(v) => v,
            None => unreached(),
        }
    }
}

impl<K: Copy, T> Detached<K, T> {
    /// The key this value was detached with.
    pub closed spec fn key_spec(&self) -> K {
        self.key
    }

    /// The detached value.
    pub closed spec fn value_spec(&self) -> T {
        self.val
    }

    /// Extracts the key.
    pub fn key(det: &Detached<K, T>) -> (r: K)
        ensures
            r == det.key_spec(),
    {
        det.key
    }

    /// A reference to the detached value.
    pub fn value(&self) -> (r: &T)
        ensures
            *r == self.value_spec(),
    {
        &self.val
    }

    /// A mutable reference to the detached value.
    pub fn value_mut(&mut self) -> (r: &mut T)
        ensures
            *r == old(self).value_spec(),
            final(self).value_spec() == *final(r),
            final(self).key_spec() == old(self).key_spec(),
    {
        &mut self.val
    }
}

} // verus!
