use vstd::prelude::*;

use crate::maybe_contains::MaybeContains;
use crate::model::contains_tag;
use crate::model::find_tag;
use crate::model::remove_model;
use crate::model::value_at;
use crate::value::TypeTag;
use crate::value::Value;
use crate::TypeSet;

verus! {

/// The infallible capability tier for present types: callable only under a
/// proof that the queried type is stored, and therefore never without an
/// answer. Each operation is the fallible one with its optional outcome
/// discharged by that proof.
pub trait Contains: MaybeContains {
    /// Returns a reference to the stored value with the queried type.
    fn get(&self, t: TypeTag) -> (r: &Value)
        requires
            self.slots().len() < usize::MAX,
            contains_tag(self.slots(), t),
        ensures
            r@ == value_at(self.slots(), t),
    ;

    /// Returns a mutable reference to the stored value with the queried
    /// type; the slot afterwards holds whatever the caller left behind the
    /// borrow.
    fn get_mut(&mut self, t: TypeTag) -> (r: &mut Value)
        requires
            old(self).slots().len() < usize::MAX,
            contains_tag(old(self).slots(), t),
        ensures
            (*r)@ == value_at(old(self).slots(), t),
            final(self).slots() == old(self).slots().update(
                find_tag(old(self).slots(), t),
                (*final(r))@,
            ),
    ;

    /// Removes the stored value with the queried type, returning it and the
    /// remaining list.
    fn remove(self, t: TypeTag) -> (r: (Value, Self))
        requires
            self.slots().len() < usize::MAX,
            contains_tag(self.slots(), t),
        ensures
            r.0@ == value_at(self.slots(), t),
            r.1.slots() == remove_model(self.slots(), t),
    ;
}

impl Contains for TypeSet {
    fn get(&self, t: TypeTag) -> (r: &Value) {
        self.try_get(t).unwrap()
    }

    fn get_mut(&mut self, t: TypeTag) -> (r: &mut Value) {
        self.try_get_mut(t).unwrap()
    }

    fn remove(self, t: TypeTag) -> (r: (Value, Self)) {
        let (v, rest) = self.try_remove(t);
        (v.unwrap(), rest)
    }
}

} // verus!
