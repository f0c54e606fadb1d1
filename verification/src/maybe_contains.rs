use vstd::prelude::*;

use crate::indexable::FindIndex;
use crate::model::contains_tag;
use crate::model::find_tag;
use crate::model::insert_model;
use crate::model::lemma_find_tag;
use crate::model::remove_model;
use crate::model::value_at;
use crate::value::tag_of;
use crate::value::TypeTag;
use crate::value::Value;
use crate::TypeSet;

verus! {

/// The fallible capability tier: every operation is callable for any type
/// on any list, and reports absence through an explicit `Option` instead of
/// demanding a proof of presence.
pub trait MaybeContains: FindIndex + Sized {
    /// Tries to return a reference to the stored value with the queried
    /// type.
    fn try_get(&self, t: TypeTag) -> (r: Option<&Value>)
        requires
            self.slots().len() < usize::MAX,
        ensures
            contains_tag(self.slots(), t) ==> (r matches Some(v) && v@ == value_at(
                self.slots(),
                t,
            )),
            !contains_tag(self.slots(), t) ==> r is None,
    ;

    /// Tries to return a mutable reference to the stored value with the
    /// queried type; the slot afterwards holds whatever the caller left
    /// behind the borrow.
    fn try_get_mut(&mut self, t: TypeTag) -> (r: Option<&mut Value>)
        requires
            old(self).slots().len() < usize::MAX,
        ensures
            contains_tag(old(self).slots(), t) ==> r.is_some() && (*r.unwrap())@ == value_at(
                old(self).slots(),
                t,
            ) && final(self).slots() == old(self).slots().update(
                find_tag(old(self).slots(), t),
                (*final(r.unwrap()))@,
            ),
            !contains_tag(old(self).slots(), t) ==> r.is_none() && *final(self) == *old(self),
    ;

    /// Tries to insert a value: when a value of the same type is already
    /// present it is replaced in place and handed back, otherwise a new
    /// leading slot is prepended.
    fn try_insert(self, item: Value) -> (r: (Option<Value>, Self))
        requires
            self.slots().len() < usize::MAX,
        ensures
            r.1.slots() == insert_model(self.slots(), item@),
            contains_tag(self.slots(), tag_of(item@)) ==> (r.0 matches Some(prev) && prev@
                == value_at(self.slots(), tag_of(item@))),
            !contains_tag(self.slots(), tag_of(item@)) ==> r.0 is None,
    ;

    /// Tries to remove the stored value with the queried type; a list
    /// lacking that type comes back unchanged.
    fn try_remove(self, t: TypeTag) -> (r: (Option<Value>, Self))
        requires
            self.slots().len() < usize::MAX,
        ensures
            contains_tag(self.slots(), t) ==> (r.0 matches Some(v) && v@ == value_at(
                self.slots(),
                t,
            ) && r.1.slots() == remove_model(self.slots(), t)),
            !contains_tag(self.slots(), t) ==> r.0 is None && r.1 == self,
    ;
}

impl MaybeContains for TypeSet {
    fn try_get(&self, t: TypeTag) -> (r: Option<&Value>) {
        let i = self.find_index(t);
        proof {
            lemma_find_tag(self@, t);
        }
        if i == usize::MAX {
            None
        } else {
            Some(self.get_by_index(i))
        }
    }

    fn try_get_mut(&mut self, t: TypeTag) -> (r: Option<&mut Value>) {
        let i = self.find_index(t);
        proof {
            lemma_find_tag(self@, t);
        }
        if i == usize::MAX {
            None
        } else {
            Some(self.get_by_index_mut(i))
        }
    }

    fn try_insert(self, item: Value) -> (r: (Option<Value>, Self)) {
        let t = item.tag();
        let i = self.find_index(t);
        proof {
            lemma_find_tag(self@, t);
        }
        self.insert_by_index(i, item)
    }

    fn try_remove(self, t: TypeTag) -> (r: (Option<Value>, Self)) {
        let i = self.find_index(t);
        proof {
            lemma_find_tag(self@, t);
        }
        if i == usize::MAX {
            (None, self)
        } else {
            let (v, rest) = self.remove_by_index(i);
            (Some(v), rest)
        }
    }
}

} // verus!
