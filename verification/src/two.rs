//! A bounded buffer holding at most two items in arrival order.
//!
//! The coordinator parks reply channels here while a classification is in
//! flight. The capacity of two, together with the eviction order of
//! [`Two::push`], is what bounds memory under sustained request pressure.

use vstd::prelude::*;

verus! {

/// Holds up to two items in arrival order: the view is a sequence of
/// length at most 2 whose first element is the oldest.
#[derive(Debug)]
pub struct Two<T> {
    older: Option<T>,
    newer: Option<T>,
}

impl<T> View for Two<T> {
    type V = Seq<T>;

    closed spec fn view(&self) -> Seq<T> {
        match (self.older, self.newer) {
            (Some(a), Some(b)) => seq![a, b],
            (Some(a), None) => seq![a],
            (None, Some(b)) => seq![b],
            (None, None) => Seq::empty(),
        }
    }
}

/// A buffer never holds more than two items.
pub broadcast proof fn lemma_two_view_bounded<T>(t: Two<T>)
    ensures
        (#[trigger] t@).len() <= 2,
{
}

impl<T> Two<T> {
    /// An empty buffer.
    pub fn new() -> (r: Self)
        ensures
            r@ =~= Seq::<T>::empty(),
    {
        Two { older: None, newer: None }
    }

    /// Append a new item as the newest. If two items are already held, the
    /// oldest is evicted and returned; the caller decides its fate (for a
    /// reply channel, dropping it cancels the waiting caller).
    pub fn push(&mut self, t: T) -> (evicted: Option<T>)
        ensures
            old(self)@.len() < 2 ==> {
                &&& final(self)@ =~= old(self)@.push(t)
                &&& evicted is None
            },
            old(self)@.len() == 2 ==> {
                &&& final(self)@ =~= seq![old(self)@[1], t]
                &&& evicted == Some(old(self)@[0])
            },
    {
        if self.newer.is_none() && self.older.is_none() {
            self.older = Some(t);
            None
        } else {
            let evicted = if self.older.is_some() && self.newer.is_some() {
                self.older.take()
            } else {
                None
            };
            if self.newer.is_some() {
                self.older = self.newer.take();
            }
            self.newer = Some(t);
            evicted
        }
    }

    /// Take out the older item if exactly two are held, leaving the newer
    /// one in place; otherwise leave the buffer unchanged.
    pub fn take_older(&mut self) -> (r: Option<T>)
        ensures
            old(self)@.len() == 2 ==> {
                &&& r == Some(old(self)@[0])
                &&& final(self)@ =~= seq![old(self)@[1]]
            },
            old(self)@.len() < 2 ==> {
                &&& r is None
                &&& final(self)@ =~= old(self)@
            },
    {
        if self.older.is_some() && self.newer.is_some() {
            let r = self.older.take();
            self.older = self.newer.take();
            r
        } else {
            None
        }
    }

    /// Take out the newest item, if any, and clear the buffer completely.
    /// An older item still held is dropped without ever being returned.
    pub fn take_newer_n_clear(&mut self) -> (r: Option<T>)
        ensures
            final(self)@ =~= Seq::<T>::empty(),
            old(self)@.len() > 0 ==> r == Some(old(self)@.last()),
            old(self)@.len() == 0 ==> r is None,
    {
        let older = self.older.take();
        let newer = self.newer.take();
        match newer {
            Some(t) => Some(t),
            None => older,
        }
    }
}

impl<T> Default for Two<T> {
    /// Same as [`Two::new`]: an empty buffer.
    fn default() -> (r: Self)
        ensures
            r@ =~= Seq::<T>::empty(),
    {
        Two::new()
    }
}

} // verus!
