//! A sample pair: the most recent two observations of one watched quantity.
//!
//! On the very first observation there is no previous value; every later
//! update shifts the current value into `previous` and stores the new one as
//! `current`. Decision predicates treat a missing previous value as "no
//! event".

use vstd::prelude::*;

verus! {

/// The last two samples of one observed quantity. `previous` is `None` until
/// the second observation; `current` is `None` until the first.
#[derive(Clone, Copy, Debug)]
pub struct Watcher<T> {
    pub previous: Option<T>,
    pub current: Option<T>,
}

impl<T: Copy> Watcher<T> {
    /// A previous value can only exist once a current one does.
    pub open spec fn wf(self) -> bool {
        self.previous is Some ==> self.current is Some
    }

    /// The watcher after one more observation of `value`.
    pub open spec fn spec_updated(self, value: T) -> Watcher<T> {
        Watcher { previous: self.current, current: Some(value) }
    }

    /// Whether the quantity changed on the latest tick; false until a
    /// previous value exists.
    pub open spec fn spec_changed(self) -> bool {
        self.previous is Some && self.previous != self.current
    }

    /// A watcher that has observed nothing yet.
    pub fn new() -> (w: Watcher<T>)
        ensures
            w.previous is None,
            w.current is None,
    {
        Watcher { previous: None, current: None }
    }

    /// Record one observation: the old current value becomes the previous
    /// one, and `value` becomes current.
    pub fn update(&mut self, value: T)
        ensures
            *final(self) == old(self).spec_updated(value),
    {
        self.previous = self.current;
        self.current = Some(value);
    }
}

} // verus!
