use vstd::prelude::*;

use crate::value::tag_of;
use crate::value::tag_size;
use crate::value::TypeTag;
use crate::value::ValueModel;

verus! {

/// Index of the first slot whose tag matches the query, or -1 when no slot
/// does: the mathematical position resolver.
pub open spec fn find_tag(s: Seq<ValueModel>, t: TypeTag) -> int
    decreases s.len(),
{
    if s.len() == 0 {
        -1
    } else if tag_of(s[0]) == t {
        0
    } else {
        let r = find_tag(s.drop_first(), t);
        if r == -1 {
            -1
        } else {
            r + 1
        }
    }
}

/// Presence: the resolver finds a slot of the queried type.
pub open spec fn contains_tag(s: Seq<ValueModel>, t: TypeTag) -> bool {
    find_tag(s, t) != -1
}

/// The stored value of the queried type; meaningful only when the type is
/// present.
pub open spec fn value_at(s: Seq<ValueModel>, t: TypeTag) -> ValueModel {
    s[find_tag(s, t)]
}

/// Uniqueness: no two slots share a type.
pub open spec fn wf(s: Seq<ValueModel>) -> bool {
    forall|i: int, j: int| 0 <= i < j < s.len() ==> tag_of(s[i]) != tag_of(s[j])
}

/// The slot list after an insert: when the value's type is already present
/// its slot is overwritten in place, otherwise one new leading slot is
/// prepended.
pub open spec fn insert_model(s: Seq<ValueModel>, v: ValueModel) -> Seq<ValueModel> {
    if contains_tag(s, tag_of(v)) {
        s.update(find_tag(s, tag_of(v)), v)
    } else {
        seq![v] + s
    }
}

/// The slot list after removing the slot of the given type; unchanged when
/// the type is absent.
pub open spec fn remove_model(s: Seq<ValueModel>, t: TypeTag) -> Seq<ValueModel> {
    if contains_tag(s, t) {
        s.remove(find_tag(s, t))
    } else {
        s
    }
}

/// What a fallible lookup yields: the stored value when the queried type is
/// present, and nothing otherwise.
pub open spec fn try_get_model(s: Seq<ValueModel>, t: TypeTag) -> Option<ValueModel> {
    if contains_tag(s, t) {
        Some(value_at(s, t))
    } else {
        None
    }
}

/// What a fallible removal yields: the removed value, if any, and the
/// remaining slots.
pub open spec fn try_remove_model(s: Seq<ValueModel>, t: TypeTag) -> (Option<ValueModel>, Seq<
    ValueModel,
>) {
    if contains_tag(s, t) {
        (Some(value_at(s, t)), remove_model(s, t))
    } else {
        (None, s)
    }
}

/// What a fallible insert yields: the displaced value, if any, and the new
/// slots.
pub open spec fn try_insert_model(s: Seq<ValueModel>, v: ValueModel) -> (Option<ValueModel>, Seq<
    ValueModel,
>) {
    if contains_tag(s, tag_of(v)) {
        (Some(value_at(s, tag_of(v))), insert_model(s, v))
    } else {
        (None, insert_model(s, v))
    }
}

/// How many slots hold the given type.
pub open spec fn count_tag(s: Seq<ValueModel>, t: TypeTag) -> nat
    decreases s.len(),
{
    if s.len() == 0 {
        0
    } else {
        (if tag_of(s[0]) == t {
            1nat
        } else {
            0nat
        }) + count_tag(s.drop_first(), t)
    }
}

/// The summed size of the slots: the container's defined footprint.
pub open spec fn set_size(s: Seq<ValueModel>) -> nat
    decreases s.len(),
{
    if s.len() == 0 {
        0
    } else {
        tag_size(tag_of(s[0])) + set_size(s.drop_first())
    }
}

/// How many distinct types a list can ever hold: one slot per tag.
pub const MAX_SLOTS: usize = 15;

/// Every tag a slot can carry.
pub open spec fn all_tags() -> Set<TypeTag> {
    set![
        TypeTag::Bool,
        TypeTag::U8,
        TypeTag::U16,
        TypeTag::U32,
        TypeTag::U64,
        TypeTag::U128,
        TypeTag::I8,
        TypeTag::I16,
        TypeTag::I32,
        TypeTag::I64,
        TypeTag::I128,
        TypeTag::F32,
        TypeTag::F64,
        TypeTag::Str,
        TypeTag::Text,
    ]
}

/// What the resolver's answer means: a found position is in range, carries
/// the queried tag, and is the first such position; a miss means no slot
/// carries the tag.
pub proof fn lemma_find_tag(s: Seq<ValueModel>, t: TypeTag)
    ensures
        contains_tag(s, t) ==> 0 <= find_tag(s, t) < s.len(),
        contains_tag(s, t) ==> tag_of(s[find_tag(s, t)]) == t,
        contains_tag(s, t) ==> forall|j: int| 0 <= j < find_tag(s, t) ==> tag_of(s[j]) != t,
        !contains_tag(s, t) ==> forall|j: int| 0 <= j < s.len() ==> tag_of(s[j]) != t,
    decreases s.len(),
{
    if s.len() != 0 && tag_of(s[0]) != t {
        lemma_find_tag(s.drop_first(), t);
        assert forall|j: int| 1 <= j < s.len() implies s[j] == s.drop_first()[j - 1] by {}
    }
}

/// Overwriting a slot with a value of the same type keeps the types
/// pairwise distinct.
pub broadcast proof fn lemma_update_same_tag_wf(s: Seq<ValueModel>, i: int, v: ValueModel)
    requires
        wf(s),
        0 <= i < s.len(),
        tag_of(v) == tag_of(s[i]),
    ensures
        wf(#[trigger] s.update(i, v)),
{
    let s2 = s.update(i, v);
    assert forall|a: int, b: int| 0 <= a < b < s2.len() implies tag_of(s2[a]) != tag_of(s2[b]) by {
        assert(tag_of(s2[a]) == tag_of(s[a]));
        assert(tag_of(s2[b]) == tag_of(s[b]));
    }
}

/// An insert keeps the types pairwise distinct: either it overwrites the one
/// slot of its own type, or it prepends a type not yet present.
pub proof fn lemma_insert_model_wf(s: Seq<ValueModel>, v: ValueModel)
    requires
        wf(s),
    ensures
        wf(insert_model(s, v)),
{
    let t = tag_of(v);
    lemma_find_tag(s, t);
    if contains_tag(s, t) {
        lemma_update_same_tag_wf(s, find_tag(s, t), v);
    } else {
        let s2 = seq![v] + s;
        assert forall|a: int, b: int| 0 <= a < b < s2.len() implies tag_of(s2[a]) != tag_of(
            s2[b],
        ) by {
            assert(s2[b] == s[b - 1]);
            if a != 0 {
                assert(s2[a] == s[a - 1]);
            }
        }
    }
}

/// A removal keeps the types pairwise distinct: every surviving slot was
/// already in the list.
pub proof fn lemma_remove_model_wf(s: Seq<ValueModel>, t: TypeTag)
    requires
        wf(s),
    ensures
        wf(remove_model(s, t)),
{
    lemma_find_tag(s, t);
    if contains_tag(s, t) {
        let i = find_tag(s, t);
        let s2 = s.remove(i);
        assert forall|a: int, b: int| 0 <= a < b < s2.len() implies tag_of(s2[a]) != tag_of(
            s2[b],
        ) by {
            assert(s2[a] == (if a < i {
                s[a]
            } else {
                s[a + 1]
            }));
            assert(s2[b] == (if b < i {
                s[b]
            } else {
                s[b + 1]
            }));
        }
    }
}

/// The capacity bound: a list whose types are pairwise distinct holds at
/// most one slot per representable type.
pub proof fn lemma_capacity(s: Seq<ValueModel>)
    requires
        wf(s),
    ensures
        s.len() <= MAX_SLOTS,
{
    broadcast use vstd::seq_lib::seq_to_set_is_finite;

    let tags = s.map_values(|v: ValueModel| tag_of(v));
    assert(tags.no_duplicates());
    tags.unique_seq_to_set();
    assert forall|t: TypeTag| #[trigger] all_tags().contains(t) by {}
    assert(tags.to_set().subset_of(all_tags()));
    assert(all_tags().finite());
    assert(all_tags().len() == 15);
    vstd::set_lib::lemma_len_subset(tags.to_set(), all_tags());
}

/// Dropping the leading slot keeps the remaining types pairwise distinct.
pub proof fn lemma_wf_drop_first(s: Seq<ValueModel>)
    requires
        wf(s),
        s.len() != 0,
    ensures
        wf(s.drop_first()),
{
    assert forall|a: int, b: int|
        0 <= a < b < s.drop_first().len() implies tag_of(s.drop_first()[a]) != tag_of(
        s.drop_first()[b],
    ) by {
        assert(s.drop_first()[a] == s[a + 1]);
        assert(s.drop_first()[b] == s[b + 1]);
    }
}

/// A type the resolver does not find occupies no slot at all.
pub proof fn lemma_count_absent(s: Seq<ValueModel>, t: TypeTag)
    requires
        !contains_tag(s, t),
    ensures
        count_tag(s, t) == 0,
    decreases s.len(),
{
    if s.len() != 0 {
        lemma_find_tag(s.drop_first(), t);
        lemma_count_absent(s.drop_first(), t);
    }
}

/// On a duplicate-free list, a type the resolver finds occupies exactly one
/// slot.
pub proof fn lemma_count_present_wf(s: Seq<ValueModel>, t: TypeTag)
    requires
        wf(s),
        contains_tag(s, t),
    ensures
        count_tag(s, t) == 1,
    decreases s.len(),
{
    lemma_wf_drop_first(s);
    if tag_of(s[0]) == t {
        if contains_tag(s.drop_first(), t) {
            lemma_find_tag(s.drop_first(), t);
            let j = find_tag(s.drop_first(), t);
            assert(s.drop_first()[j] == s[j + 1]);
            assert(false);
        }
        lemma_count_absent(s.drop_first(), t);
    } else {
        lemma_count_present_wf(s.drop_first(), t);
    }
}

/// Lists whose slots carry the same type at every position.
pub open spec fn same_tags(s1: Seq<ValueModel>, s2: Seq<ValueModel>) -> bool {
    s1.len() == s2.len() && forall|j: int| 0 <= j < s1.len() ==> tag_of(s1[j]) == tag_of(s2[j])
}

/// The resolver answers by types alone: lists with the same types at the
/// same positions resolve every query alike.
pub proof fn lemma_same_tags_find(s1: Seq<ValueModel>, s2: Seq<ValueModel>, t: TypeTag)
    requires
        same_tags(s1, s2),
    ensures
        find_tag(s1, t) == find_tag(s2, t),
    decreases s1.len(),
{
    if s1.len() != 0 {
        assert forall|j: int| 0 <= j < s1.drop_first().len() implies tag_of(
            s1.drop_first()[j],
        ) == tag_of(s2.drop_first()[j]) by {
            assert(s1.drop_first()[j] == s1[j + 1]);
            assert(s2.drop_first()[j] == s2[j + 1]);
        }
        lemma_same_tags_find(s1.drop_first(), s2.drop_first(), t);
    }
}

/// The footprint depends on the types alone.
pub proof fn lemma_same_tags_size(s1: Seq<ValueModel>, s2: Seq<ValueModel>)
    requires
        same_tags(s1, s2),
    ensures
        set_size(s1) == set_size(s2),
    decreases s1.len(),
{
    if s1.len() != 0 {
        assert forall|j: int| 0 <= j < s1.drop_first().len() implies tag_of(
            s1.drop_first()[j],
        ) == tag_of(s2.drop_first()[j]) by {
            assert(s1.drop_first()[j] == s1[j + 1]);
            assert(s2.drop_first()[j] == s2[j + 1]);
        }
        lemma_same_tags_size(s1.drop_first(), s2.drop_first());
    }
}

/// The footprint of a list is bounded by the widest slot times its length.
pub proof fn lemma_set_size_bound(s: Seq<ValueModel>)
    ensures
        set_size(s) <= 24 * s.len(),
    decreases s.len(),
{
    if s.len() != 0 {
        lemma_set_size_bound(s.drop_first());
        assert(tag_size(tag_of(s[0])) <= 24);
    }
}

} // verus!
