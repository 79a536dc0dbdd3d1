//! Window identities and a total per-window mapping.

use vstd::prelude::*;

verus! {

/// Identity of one output surface and of the render thread that owns it.
/// Every cross-thread message carries one of these as its routing key.
#[derive(Clone, Copy, Debug, Hash, PartialEq, Eq, Structural)]
pub enum WindowId {
    First,
    Second,
}

/// Total mapping from window identities to per-window data. The design keeps
/// one window-keyed mapping instead of duplicated per-window fields, and a
/// total mapping instead of a hash map so that every access stays verified.
#[derive(Clone, Copy, Debug)]
pub struct PerWindow<T> {
    pub first: T,
    pub second: T,
}

impl<T> PerWindow<T> {
    pub open spec fn spec_get(self, w: WindowId) -> T {
        match w {
            WindowId::First => self.first,
            WindowId::Second => self.second,
        }
    }

    pub open spec fn spec_set(self, w: WindowId, v: T) -> PerWindow<T> {
        match w {
            WindowId::First => PerWindow { first: v, second: self.second },
            WindowId::Second => PerWindow { first: self.first, second: v },
        }
    }

    pub fn new(first: T, second: T) -> (r: PerWindow<T>)
        ensures
            r.first == first,
            r.second == second,
    {
        PerWindow { first, second }
    }

    pub fn get(&self, w: WindowId) -> (r: &T)
        ensures
            *r == self.spec_get(w),
    {
        match w {
            WindowId::First => &self.first,
            WindowId::Second => &self.second,
        }
    }

    pub fn get_mut(&mut self, w: WindowId) -> (r: &mut T)
        ensures
            *r == old(self).spec_get(w),
            *final(self) == old(self).spec_set(w, *final(r)),
    {
        match w {
            WindowId::First => &mut self.first,
            WindowId::Second => &mut self.second,
        }
    }

    pub fn set(&mut self, w: WindowId, v: T)
        ensures
            *final(self) == old(self).spec_set(w, v),
    {
        match w {
            WindowId::First => self.first = v,
            WindowId::Second => self.second = v,
        }
    }
}

} // verus!
