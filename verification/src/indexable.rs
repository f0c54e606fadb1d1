use vstd::prelude::*;

use crate::lemma_cons_slots;
use crate::Cons;
use crate::model::contains_tag;
use crate::model::find_tag;
use crate::model::lemma_find_tag;
use crate::value::TypeTag;
use crate::value::Value;
use crate::value::ValueModel;
use crate::TypeSet;

verus! {

/// The position resolver: computes the slot index of a queried type, with
/// `usize::MAX` as the not-found sentinel, so that absence can be told from
/// the returned index alone.
pub trait FindIndex {
    /// The slots of the container, head first.
    spec fn slots(&self) -> Seq<ValueModel>;

    /// The index of the first slot holding the queried type, or `usize::MAX`
    /// when no slot does.
    fn find_index(&self, t: TypeTag) -> (i: usize)
        requires
            self.slots().len() < usize::MAX,
        ensures
            contains_tag(self.slots(), t) ==> i == find_tag(self.slots(), t),
            !contains_tag(self.slots(), t) ==> i == usize::MAX,
    ;
}

impl FindIndex for TypeSet {
    open spec fn slots(&self) -> Seq<ValueModel> {
        self@
    }

    fn find_index(&self, t: TypeTag) -> (i: usize)
        decreases *self,
    {
        match self {
            TypeSet::Nil(_) => usize::MAX,
            TypeSet::Cons(c) => {
                proof {
                    lemma_cons_slots(*c);
                }
                if c.head.tag() == t {
                    0
                } else {
                    let r = c.tail.find_index(t);
                    proof {
                        lemma_find_tag((*c.tail)@, t);
                    }
                    if r == usize::MAX {
                        usize::MAX
                    } else {
                        r + 1
                    }
                }
            },
        }
    }
}

impl TypeSet {
    /// Borrows the slot at a known-valid position.
    pub fn get_by_index(&self, i: usize) -> (r: &Value)
        requires
            i < self@.len(),
        ensures
            r@ == self@[i as int],
        decreases *self,
    {
        match self {
            TypeSet::Nil(_) => unreached(),
            TypeSet::Cons(c) => {
                proof {
                    lemma_cons_slots(*c);
                }
                if i == 0 {
                    &c.head
                } else {
                    c.tail.get_by_index(i - 1)
                }
            },
        }
    }

    /// Exclusively borrows the slot at a known-valid position; the list
    /// afterwards holds whatever the caller left behind the borrow.
    pub fn get_by_index_mut(&mut self, i: usize) -> (r: &mut Value)
        requires
            i < old(self)@.len(),
        ensures
            (*r)@ == old(self)@[i as int],
            final(self)@ == old(self)@.update(i as int, (*final(r))@),
        decreases *old(self),
    {
        match self {
            TypeSet::Nil(_) => unreached(),
            TypeSet::Cons(c) => {
                proof {
                    lemma_cons_slots(*c);
                }
                if i == 0 {
                    &mut c.head
                } else {
                    (&mut *c.tail).get_by_index_mut(i - 1)
                }
            },
        }
    }

    /// Consumes the list and removes the slot at a known-valid position,
    /// returning the removed value and the remaining list.
    pub fn remove_by_index(self, i: usize) -> (r: (Value, TypeSet))
        requires
            i < self@.len(),
        ensures
            r.0@ == self@[i as int],
            r.1@ == self@.remove(i as int),
        decreases self,
    {
        match self {
            TypeSet::Nil(_) => unreached(),
            TypeSet::Cons(c) => {
                proof {
                    lemma_cons_slots(c);
                }
                let Cons { head, tail } = c;
                if i == 0 {
                    (head, *tail)
                } else {
                    let (v, rest) = (*tail).remove_by_index(i - 1);
                    let out = TypeSet::Cons(Cons { head, tail: Box::new(rest) });
                    proof {
                        assert(out@ =~= self@.remove(i as int));
                    }
                    (v, out)
                }
            },
        }
    }

    /// Consumes the list and inserts a value: at a known-valid position the
    /// slot there is overwritten and its old value returned; at the
    /// not-found sentinel a new leading slot is prepended.
    pub fn insert_by_index(self, i: usize, item: Value) -> (r: (Option<Value>, TypeSet))
        requires
            self@.len() < usize::MAX,
            i < self@.len() || i == usize::MAX,
        ensures
            i != usize::MAX ==> {
                &&& r.0 matches Some(prev) && prev@ == self@[i as int]
                &&& r.1@ == self@.update(i as int, item@)
            },
            i == usize::MAX ==> {
                &&& r.0 is None
                &&& r.1@ == seq![item@] + self@
            },
        decreases self,
    {
        if i == usize::MAX {
            let out = TypeSet::Cons(Cons { head: item, tail: Box::new(self) });
            proof {
                assert(out@ =~= seq![item@] + self@);
            }
            (None, out)
        } else {
            match self {
                TypeSet::Nil(_) => unreached(),
                TypeSet::Cons(c) => {
                    proof {
                        lemma_cons_slots(c);
                    }
                    let Cons { head, tail } = c;
                    if i == 0 {
                        let out = TypeSet::Cons(Cons { head: item, tail });
                        proof {
                            assert(out@ =~= self@.update(0, item@));
                        }
                        (Some(head), out)
                    } else {
                        let (prev, rest) = (*tail).insert_by_index(i - 1, item);
                        let out = TypeSet::Cons(Cons { head, tail: Box::new(rest) });
                        proof {
                            assert(out@ =~= self@.update(i as int, item@));
                        }
                        (prev, out)
                    }
                },
            }
        }
    }
}

} // verus!
