use vstd::prelude::*;

use crate::maybe_contains::MaybeContains;
use crate::model::contains_tag;
use crate::value::tag_of;
use crate::value::Value;
use crate::TypeSet;

verus! {

/// The infallible capability tier for absent types: callable only under a
/// proof that the value's type is not yet stored, so an insert always grows
/// the list by exactly one new leading slot and never displaces anything.
pub trait Missing: MaybeContains {
    /// Inserts a value whose type is proven absent.
    fn insert(self, item: Value) -> (r: Self)
        requires
            self.slots().len() < usize::MAX,
            !contains_tag(self.slots(), tag_of(item@)),
        ensures
            r.slots() == seq![item@] + self.slots(),
    ;
}

impl Missing for TypeSet {
    fn insert(self, item: Value) -> (r: Self) {
        let (_, inserted) = self.try_insert(item);
        inserted
    }
}

} // verus!
