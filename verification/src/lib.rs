//! A static type map: a fixed-capacity container holding at most one value of
//! each distinct stored type, where insertion, lookup, mutation and removal
//! are resolved by the value's type rather than by a runtime key.
//!
//! The container is a slot list: an ordered, duplicate-free sequence of
//! tagged values. A position resolver computes the slot of a queried type
//! tag; accessors and mutators then work at that position. Every operation
//! comes in two tiers: an infallible tier whose preconditions demand a proof
//! of presence or absence, and a fallible tier that is always callable and
//! reports absence through an explicit `Option`.

use vstd::prelude::*;

pub mod contains;
pub mod indexable;
pub mod laws;
pub mod maybe_contains;
pub mod missing;
pub mod model;
pub mod value;

pub use crate::contains::Contains;
pub use crate::indexable::FindIndex;
pub use crate::maybe_contains::MaybeContains;
pub use crate::missing::Missing;
pub use crate::value::TypeTag;
pub use crate::value::Value;
pub use crate::value::ValueModel;

use crate::model::contains_tag;
use crate::model::find_tag;
use crate::model::insert_model;
use crate::model::lemma_capacity;
use crate::model::lemma_find_tag;
use crate::model::lemma_insert_model_wf;
use crate::model::lemma_remove_model_wf;
use crate::model::lemma_set_size_bound;
use crate::model::lemma_update_same_tag_wf;
use crate::model::remove_model;
use crate::model::set_size;
use crate::model::value_at;
use crate::model::wf;
use crate::value::size_of_tag;
use crate::value::tag_of;

verus! {

/// Represents the empty slot list.
#[derive(Clone, Copy, PartialEq, Eq, Structural, Debug)]
pub struct Nil;

/// One slot joined onto the front of a tail list.
#[derive(Debug)]
pub struct Cons {
    pub head: Value,
    pub tail: Box<TypeSet>,
}

/// The ordered, duplicate-free list of currently stored values, one slot per
/// distinct type.
///
/// The list itself does not force uniqueness of tags; the facade
/// (`TyghtMap`) only ever builds lists whose tags are pairwise distinct.
#[derive(Debug)]
pub enum TypeSet {
    Nil(Nil),
    Cons(Cons),
}

/// The slots of a list, head first.
pub open spec fn slots_of(s: TypeSet) -> Seq<ValueModel>
    decreases s,
{
    match s {
        TypeSet::Nil(_) => Seq::empty(),
        TypeSet::Cons(c) => seq![c.head@] + slots_of(*c.tail),
    }
}

impl View for TypeSet {
    type V = Seq<ValueModel>;

    open spec fn view(&self) -> Seq<ValueModel> {
        slots_of(*self)
    }
}

/// How a non-empty list decomposes: its slots are its head followed by the
/// slots of its tail.
pub proof fn lemma_cons_slots(c: Cons)
    ensures
        slots_of(TypeSet::Cons(c)).len() == 1 + slots_of(*c.tail).len(),
        slots_of(TypeSet::Cons(c))[0] == c.head@,
        slots_of(TypeSet::Cons(c)).drop_first() == slots_of(*c.tail),
{
    assert(slots_of(TypeSet::Cons(c)).drop_first() =~= slots_of(*c.tail));
}

impl TypeSet {
    /// The summed size of the slots, in bytes: the exact footprint the list
    /// is defined to occupy.
    pub fn size(&self) -> (n: usize)
        requires
            wf(self@),
        ensures
            n == set_size(self@),
        decreases *self,
    {
        match self {
            TypeSet::Nil(_) => 0,
            TypeSet::Cons(c) => {
                proof {
                    lemma_cons_slots(*c);
                    assert forall|a: int, b: int|
                        0 <= a < b < (*c.tail)@.len() implies tag_of((*c.tail)@[a]) != tag_of(
                        (*c.tail)@[b],
                    ) by {
                        assert((*c.tail)@[a] == self@[a + 1]);
                        assert((*c.tail)@[b] == self@[b + 1]);
                    }
                    lemma_capacity(self@);
                    lemma_set_size_bound(self@);
                }
                let m = c.tail.size();
                size_of_tag(c.head.tag()) + m
            },
        }
    }
}

impl PartialEq for TypeSet {
    fn eq(&self, other: &Self) -> (r: bool)
        decreases *self,
    {
        match (self, other) {
            (TypeSet::Nil(_), TypeSet::Nil(_)) => true,
            (TypeSet::Cons(a), TypeSet::Cons(b)) => {
                proof {
                    lemma_cons_slots(*a);
                    lemma_cons_slots(*b);
                }
                let heads = a.head == b.head;
                let tails = (*a.tail).eq(&*b.tail);
                proof {
                    if heads && tails {
                        assert(self@ =~= other@);
                    }
                }
                heads && tails
            },
            (TypeSet::Nil(_), TypeSet::Cons(b)) => {
                proof {
                    lemma_cons_slots(*b);
                }
                false
            },
            (TypeSet::Cons(a), TypeSet::Nil(_)) => {
                proof {
                    lemma_cons_slots(*a);
                }
                false
            },
        }
    }
}

impl vstd::std_specs::cmp::PartialEqSpecImpl for TypeSet {
    open spec fn obeys_eq_spec() -> bool {
        true
    }

    open spec fn eq_spec(&self, other: &Self) -> bool {
        self@ == other@
    }
}

/// A static type map: the facade wrapping one slot list, whose slot types
/// are pairwise distinct in every reachable value.
///
/// The infallible operations (`get`, `get_mut`, `remove`, `replace`,
/// `insert`) demand a proof of presence or absence of the queried type; the
/// fallible counterparts are always callable and report absence through an
/// explicit `Option`.
#[derive(Debug)]
#[must_use]
pub struct TyghtMap(TypeSet);

impl View for TyghtMap {
    type V = Seq<ValueModel>;

    closed spec fn view(&self) -> Seq<ValueModel> {
        self.0@
    }
}

impl PartialEq for TyghtMap {
    fn eq(&self, other: &Self) -> (r: bool) {
        self.0 == other.0
    }
}

impl vstd::std_specs::cmp::PartialEqSpecImpl for TyghtMap {
    open spec fn obeys_eq_spec() -> bool {
        true
    }

    open spec fn eq_spec(&self, other: &Self) -> bool {
        self@ == other@
    }
}

impl Default for TyghtMap {
    fn default() -> (m: Self)
        ensures
            m@ == Seq::<ValueModel>::empty(),
    {
        TyghtMap(TypeSet::Nil(Nil))
    }
}

impl TyghtMap {
    /// Constructs an empty map.
    pub fn new() -> (m: Self)
        ensures
            m@ == Seq::<ValueModel>::empty(),
            wf(m@),
    {
        Self::default()
    }

    /// Replaces the stored value of the given value's type, returning the
    /// prior value; the shape of the map does not change.
    pub fn replace(&mut self, item: Value) -> (r: Value)
        requires
            wf(old(self)@),
            contains_tag(old(self)@, tag_of(item@)),
        ensures
            r@ == value_at(old(self)@, tag_of(item@)),
            final(self)@ == insert_model(old(self)@, item@),
            wf(final(self)@),
    {
        proof {
            lemma_capacity(self@);
            lemma_find_tag(self@, tag_of(item@));
            lemma_insert_model_wf(self@, item@);
        }
        let t = item.tag();
        let mut item = item;
        let slot = self.0.get_mut(t);
        core::mem::swap(slot, &mut item);
        item
    }

    /// Tries to insert a value. When a value of the same type is already
    /// present it is replaced and handed back; otherwise the map grows by
    /// one leading slot.
    ///
    /// This consumes the map and returns an `(item, map)` pair.
    pub fn try_insert(self, item: Value) -> (r: (Option<Value>, Self))
        requires
            wf(self@),
        ensures
            r.1@ == insert_model(self@, item@),
            wf(r.1@),
            contains_tag(self@, tag_of(item@)) ==> (r.0 matches Some(prev) && prev@ == value_at(
                self@,
                tag_of(item@),
            )),
            !contains_tag(self@, tag_of(item@)) ==> r.0 is None,
    {
        proof {
            lemma_capacity(self@);
            lemma_insert_model_wf(self@, item@);
        }
        let (prev, s) = self.0.try_insert(item);
        (prev, TyghtMap(s))
    }

    /// Inserts a value whose type is proven absent.
    ///
    /// This consumes then returns the map, grown by one leading slot.
    pub fn insert(self, item: Value) -> (r: Self)
        requires
            wf(self@),
            !contains_tag(self@, tag_of(item@)),
        ensures
            r@ == seq![item@] + self@,
            wf(r@),
    {
        proof {
            lemma_capacity(self@);
            lemma_insert_model_wf(self@, item@);
        }
        TyghtMap(self.0.insert(item))
    }

    /// Returns a reference to the stored value of a type proven present.
    pub fn get(&self, t: TypeTag) -> (r: &Value)
        requires
            wf(self@),
            contains_tag(self@, t),
        ensures
            r@ == value_at(self@, t),
    {
        proof {
            lemma_capacity(self@);
        }
        self.0.get(t)
    }

    /// Tries to return a reference to the stored value of the queried type.
    pub fn try_get(&self, t: TypeTag) -> (r: Option<&Value>)
        requires
            wf(self@),
        ensures
            contains_tag(self@, t) ==> (r matches Some(v) && v@ == value_at(self@, t)),
            !contains_tag(self@, t) ==> r is None,
    {
        proof {
            lemma_capacity(self@);
        }
        self.0.try_get(t)
    }

    /// Returns a mutable reference to the stored value of a type proven
    /// present; the slot afterwards holds whatever the caller left behind
    /// the borrow, and the map stays duplicate-free as long as that value
    /// keeps the slot's type.
    pub fn get_mut(&mut self, t: TypeTag) -> (r: &mut Value)
        requires
            wf(old(self)@),
            contains_tag(old(self)@, t),
        ensures
            (*r)@ == value_at(old(self)@, t),
            final(self)@ == old(self)@.update(find_tag(old(self)@, t), (*final(r))@),
            tag_of((*final(r))@) == t ==> wf(final(self)@),
    {
        proof {
            broadcast use lemma_update_same_tag_wf;

            lemma_capacity(self@);
            lemma_find_tag(self@, t);
        }
        self.0.get_mut(t)
    }

    /// Tries to return a mutable reference to the stored value of the
    /// queried type; a map lacking that type is left untouched.
    pub fn try_get_mut(&mut self, t: TypeTag) -> (r: Option<&mut Value>)
        requires
            wf(old(self)@),
        ensures
            contains_tag(old(self)@, t) ==> r.is_some() && (*r.unwrap())@ == value_at(
                old(self)@,
                t,
            ) && final(self)@ == old(self)@.update(
                find_tag(old(self)@, t),
                (*final(r.unwrap()))@,
            ) && (tag_of((*final(r.unwrap()))@) == t ==> wf(final(self)@)),
            !contains_tag(old(self)@, t) ==> r.is_none() && *final(self) == *old(self),
    {
        proof {
            broadcast use lemma_update_same_tag_wf;

            lemma_capacity(self@);
            lemma_find_tag(self@, t);
        }
        self.0.try_get_mut(t)
    }

    /// Removes the stored value of a type proven present.
    ///
    /// This consumes the map and returns an `(item, map)` pair.
    pub fn remove(self, t: TypeTag) -> (r: (Value, Self))
        requires
            wf(self@),
            contains_tag(self@, t),
        ensures
            r.0@ == value_at(self@, t),
            r.1@ == remove_model(self@, t),
            wf(r.1@),
    {
        proof {
            lemma_capacity(self@);
            lemma_remove_model_wf(self@, t);
        }
        let (v, s) = self.0.remove(t);
        (v, TyghtMap(s))
    }

    /// Tries to remove the stored value of the queried type; a map lacking
    /// that type comes back unchanged.
    ///
    /// This consumes the map and returns an `(optional_item, map)` pair.
    pub fn try_remove(self, t: TypeTag) -> (r: (Option<Value>, Self))
        requires
            wf(self@),
        ensures
            contains_tag(self@, t) ==> (r.0 matches Some(v) && v@ == value_at(self@, t) && r.1@
                == remove_model(self@, t)),
            !contains_tag(self@, t) ==> r.0 is None && r.1 == self,
            wf(r.1@),
    {
        proof {
            lemma_capacity(self@);
            lemma_remove_model_wf(self@, t);
        }
        let (v, s) = self.0.try_remove(t);
        (v, TyghtMap(s))
    }

    /// The summed size of the slots, in bytes: the map adds nothing of its
    /// own to the footprint of what it stores.
    pub fn size(&self) -> (n: usize)
        requires
            wf(self@),
        ensures
            n == set_size(self@),
    {
        self.0.size()
    }
}

} // verus!
