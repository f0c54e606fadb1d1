//! The laws the container obeys, each stated over the slot model and proved
//! once for all reachable sets.

use vstd::prelude::*;

use crate::model::contains_tag;
use crate::model::count_tag;
use crate::model::find_tag;
use crate::model::insert_model;
use crate::model::lemma_count_present_wf;
use crate::model::lemma_find_tag;
use crate::model::lemma_insert_model_wf;
use crate::model::lemma_same_tags_find;
use crate::model::lemma_same_tags_size;
use crate::model::remove_model;
use crate::model::same_tags;
use crate::model::set_size;
use crate::model::try_get_model;
use crate::model::try_insert_model;
use crate::model::try_remove_model;
use crate::model::value_at;
use crate::model::wf;
use crate::value::tag_of;
use crate::value::tag_size;
use crate::value::TypeTag;
use crate::value::ValueModel;

verus! {

/// Uniqueness: on a duplicate-free set, after an insert the resolver finds
/// the inserted value's type, and exactly one slot holds it.
pub proof fn lemma_insert_unique(s: Seq<ValueModel>, v: ValueModel)
    requires
        wf(s),
    ensures
        contains_tag(insert_model(s, v), tag_of(v)),
        count_tag(insert_model(s, v), tag_of(v)) == 1,
{
    let t = tag_of(v);
    let s2 = insert_model(s, v);
    lemma_insert_model_wf(s, v);
    lemma_find_tag(s, t);
    if contains_tag(s, t) {
        assert(same_tags(s, s2));
        lemma_same_tags_find(s, s2, t);
    } else {
        assert(s2[0] == v);
        assert(find_tag(s2, t) == 0);
    }
    lemma_count_present_wf(s2, t);
}

/// Insert/remove inverse: removing the type just inserted into a set that
/// lacked it returns the inserted value and leaves the original set.
pub proof fn lemma_insert_remove_inverse(s: Seq<ValueModel>, v: ValueModel)
    requires
        !contains_tag(s, tag_of(v)),
    ensures
        contains_tag(insert_model(s, v), tag_of(v)),
        try_remove_model(insert_model(s, v), tag_of(v)) == (Some(v), s),
{
    let t = tag_of(v);
    let s2 = insert_model(s, v);
    assert(s2 == seq![v] + s);
    assert(s2[0] == v);
    assert(find_tag(s2, t) == 0);
    assert(s2.remove(0) =~= s);
}

/// Replace identity: overwriting the slot of a present type yields a set of
/// the same length where resolving that type finds the new value, and every
/// other slot is exactly as it was.
pub proof fn lemma_replace_identity(s: Seq<ValueModel>, v: ValueModel)
    requires
        contains_tag(s, tag_of(v)),
    ensures
        insert_model(s, v).len() == s.len(),
        value_at(insert_model(s, v), tag_of(v)) == v,
        forall|j: int|
            0 <= j < s.len() && j != find_tag(s, tag_of(v)) ==> insert_model(s, v)[j] == s[j],
{
    let t = tag_of(v);
    let s2 = insert_model(s, v);
    lemma_find_tag(s, t);
    assert(same_tags(s, s2));
    lemma_same_tags_find(s, s2, t);
}

/// Fallible/infallible agreement for lookup: whenever presence is proven,
/// the fallible lookup yields exactly the value the infallible one does.
pub proof fn lemma_try_get_agrees(s: Seq<ValueModel>, t: TypeTag)
    requires
        contains_tag(s, t),
    ensures
        try_get_model(s, t) == Some(value_at(s, t)),
{
}

/// Fallible/infallible agreement for removal: whenever presence is proven,
/// the fallible removal yields exactly the value and the remaining set the
/// infallible one does.
pub proof fn lemma_try_remove_agrees(s: Seq<ValueModel>, t: TypeTag)
    requires
        contains_tag(s, t),
    ensures
        try_remove_model(s, t) == (Some(value_at(s, t)), remove_model(s, t)),
{
}

/// Fallible/infallible agreement for insertion: whenever absence is proven,
/// the fallible insert displaces nothing and yields exactly the prepended
/// set the infallible one does.
pub proof fn lemma_try_insert_agrees(s: Seq<ValueModel>, v: ValueModel)
    requires
        !contains_tag(s, tag_of(v)),
    ensures
        try_insert_model(s, v) == (None::<ValueModel>, seq![v] + s),
{
}

/// Absence stability: trying to remove a type a set lacks removes nothing
/// and leaves the set exactly as it was.
pub proof fn lemma_absent_remove_stable(s: Seq<ValueModel>, t: TypeTag)
    requires
        !contains_tag(s, t),
    ensures
        try_remove_model(s, t) == (None::<ValueModel>, s),
{
}

/// How the footprint moves under an insert: grown by exactly the new slot's
/// size when its type was absent, unchanged when a slot was overwritten.
pub proof fn lemma_insert_size(s: Seq<ValueModel>, v: ValueModel)
    requires
        wf(s),
    ensures
        !contains_tag(s, tag_of(v)) ==> set_size(insert_model(s, v)) == set_size(s) + tag_size(
            tag_of(v),
        ),
        contains_tag(s, tag_of(v)) ==> set_size(insert_model(s, v)) == set_size(s),
{
    let t = tag_of(v);
    let s2 = insert_model(s, v);
    lemma_find_tag(s, t);
    if contains_tag(s, t) {
        assert(same_tags(s, s2));
        lemma_same_tags_size(s, s2);
    } else {
        assert(s2[0] == v);
        assert(s2.drop_first() =~= s);
    }
}

/// The footprint given up by removing one slot is exactly that slot's size.
proof fn lemma_remove_size_at(s: Seq<ValueModel>, i: int)
    requires
        0 <= i < s.len(),
    ensures
        set_size(s.remove(i)) + tag_size(tag_of(s[i])) == set_size(s),
    decreases s.len(),
{
    let s2 = s.remove(i);
    if i == 0 {
        assert(s2 =~= s.drop_first());
    } else {
        assert(s2[0] == s[0]);
        assert(s2.drop_first() =~= s.drop_first().remove(i - 1));
        assert(s.drop_first()[i - 1] == s[i]);
        lemma_remove_size_at(s.drop_first(), i - 1);
    }
}

/// How the footprint moves under a removal: shrunk by exactly the removed
/// slot's size when its type was present, unchanged otherwise.
pub proof fn lemma_remove_size(s: Seq<ValueModel>, t: TypeTag)
    ensures
        contains_tag(s, t) ==> set_size(remove_model(s, t)) + tag_size(t) == set_size(s),
        !contains_tag(s, t) ==> remove_model(s, t) == s,
{
    lemma_find_tag(s, t);
    if contains_tag(s, t) {
        lemma_remove_size_at(s, find_tag(s, t));
    }
}

} // verus!
