//! A small JSON document model.
//!
//! `JsonValue` is the executable tree; `JsonModel` is its mathematical image,
//! in which an object is a `Map` from key to value, as a JSON object is: the
//! textual order of the members and repeated keys (later wins) do not survive.
//! Every contract of the codec speaks of `JsonModel` values.

use vstd::prelude::*;

verus! {

broadcast use {
    vstd::seq::axiom_seq_index_decreases,
    vstd::std_specs::vec::axiom_vec_decreases_to_view,
    vstd::std_specs::vec::axiom_vec_index_decreases,
};

/// The mathematical image of a JSON document: objects are maps, strings are
/// character sequences.  A number is restricted to what the protocol ever
/// carries natively, an unsigned 64-bit integer; anything else a document
/// holds in number position is modelled as `Null` (and is rejected wherever a
/// number is required).
#[verifier::ext_equal]
pub enum JsonModel {
    Null,
    Bool(bool),
    Num(u64),
    Str(Seq<char>),
    Arr(Seq<JsonModel>),
    Obj(Map<Seq<char>, JsonModel>),
}

/// An executable JSON tree.  An object is kept as its member list in textual
/// order; its mathematical image collapses the list to a map, later members
/// winning, as JSON object semantics dictate.
#[derive(Debug, PartialEq, Eq)]
pub enum JsonValue {
    Null,
    Bool(bool),
    Num(u64),
    Str(String),
    Arr(Vec<JsonValue>),
    Obj(Vec<(String, JsonValue)>),
}

/// Collapses a member list to the map it denotes: a later member with the
/// same key wins, as when the members are inserted in textual order.
pub open spec fn pairs_to_map<V>(s: Seq<(Seq<char>, V)>) -> Map<Seq<char>, V>
    decreases s.len(),
{
    if s.len() == 0 {
        Map::empty()
    } else {
        pairs_to_map(s.drop_last()).insert(s.last().0, s.last().1)
    }
}

/// The mathematical image of an executable JSON tree.
pub open spec fn model_of(v: JsonValue) -> JsonModel
    decreases v,
    via model_of_decreases
{
    match v {
        JsonValue::Null => JsonModel::Null,
        JsonValue::Bool(b) => JsonModel::Bool(b),
        JsonValue::Num(n) => JsonModel::Num(n),
        JsonValue::Str(s) => JsonModel::Str(s@),
        JsonValue::Arr(a) => JsonModel::Arr(models_of_seq(a@)),
        JsonValue::Obj(members) => JsonModel::Obj(pairs_to_map(member_models(members@))),
    }
}

/// The images of the elements of a sequence of JSON trees.
pub open spec fn models_of_seq(s: Seq<JsonValue>) -> Seq<JsonModel>
    decreases s,
{
    if s.len() == 0 {
        Seq::empty()
    } else {
        models_of_seq(s.drop_last()).push(model_of(s.last()))
    }
}

/// The images of the members of an object, in textual order.
pub open spec fn member_models(s: Seq<(String, JsonValue)>) -> Seq<(Seq<char>, JsonModel)>
    decreases s,
{
    if s.len() == 0 {
        Seq::empty()
    } else {
        member_models(s.drop_last()).push((s.last().0@, model_of(s.last().1)))
    }
}

#[via_fn]
proof fn model_of_decreases(v: JsonValue) {
    match v {
        JsonValue::Arr(a) => {
            assert(decreases_to!(v => a));
            assert(decreases_to!(a => a@));
        },
        JsonValue::Obj(members) => {
            assert(decreases_to!(v => members));
            assert(decreases_to!(members => members@));
        },
        _ => {},
    }
}

impl DeepView for JsonValue {
    type V = JsonModel;

    open spec fn deep_view(&self) -> JsonModel {
        model_of(*self)
    }
}

/// `member_models` is the pointwise image of the member list.
pub proof fn lemma_member_models_index(s: Seq<(String, JsonValue)>)
    ensures
        member_models(s).len() == s.len(),
        forall|i: int|
            0 <= i < s.len() ==> #[trigger] member_models(s)[i] == (s[i].0@, model_of(s[i].1)),
    decreases s.len(),
{
    if s.len() > 0 {
        lemma_member_models_index(s.drop_last());
        assert forall|i: int| 0 <= i < s.len() implies #[trigger] member_models(s)[i] == (
            s[i].0@,
            model_of(s[i].1),
        ) by {
            if i < s.len() - 1 {
                assert(member_models(s)[i] == member_models(s.drop_last())[i]);
                assert(s.drop_last()[i] == s[i]);
            }
        }
    }
}

/// `models_of_seq` is the pointwise image of the element list.
pub proof fn lemma_models_of_seq_index(s: Seq<JsonValue>)
    ensures
        models_of_seq(s).len() == s.len(),
        forall|i: int| 0 <= i < s.len() ==> #[trigger] models_of_seq(s)[i] == model_of(s[i]),
    decreases s.len(),
{
    if s.len() > 0 {
        lemma_models_of_seq_index(s.drop_last());
        assert forall|i: int| 0 <= i < s.len() implies #[trigger] models_of_seq(s)[i] == model_of(
            s[i],
        ) by {
            if i < s.len() - 1 {
                assert(models_of_seq(s)[i] == models_of_seq(s.drop_last())[i]);
                assert(s.drop_last()[i] == s[i]);
            }
        }
    }
}

/// Appending a member extends the image pointwise.
pub proof fn lemma_member_models_push(s: Seq<(String, JsonValue)>, p: (String, JsonValue))
    ensures
        member_models(s.push(p)) == member_models(s).push((p.0@, model_of(p.1))),
{
    assert(s.push(p).drop_last() =~= s);
    assert(s.push(p).last() == p);
}

/// Appending an element extends the image pointwise.
pub proof fn lemma_models_of_seq_push(s: Seq<JsonValue>, v: JsonValue)
    ensures
        models_of_seq(s.push(v)) == models_of_seq(s).push(model_of(v)),
{
    assert(s.push(v).drop_last() =~= s);
    assert(s.push(v).last() == v);
}

/// Collapsing a concatenation of member lists merges the two maps, members of
/// the second list winning, as they stand later in textual order.
pub proof fn lemma_pairs_to_map_concat<V>(s1: Seq<(Seq<char>, V)>, s2: Seq<(Seq<char>, V)>)
    ensures
        pairs_to_map(s1 + s2) == pairs_to_map(s1).union_prefer_right(pairs_to_map(s2)),
    decreases s2.len(),
{
    if s2.len() == 0 {
        assert(s1 + s2 =~= s1);
        assert(pairs_to_map(s1).union_prefer_right(pairs_to_map(s2)) =~= pairs_to_map(s1));
    } else {
        let t = s2.drop_last();
        lemma_pairs_to_map_concat(s1, t);
        assert((s1 + s2).drop_last() =~= s1 + t);
        assert((s1 + s2).last() == s2.last());
        assert(pairs_to_map(s1).union_prefer_right(pairs_to_map(t)).insert(
            s2.last().0,
            s2.last().1,
        ) =~= pairs_to_map(s1).union_prefer_right(pairs_to_map(t).insert(s2.last().0, s2.last().1)));
    }
}

/// The character sequence a `Str` model holds; empty for any other model.
pub open spec fn str_of(j: JsonModel) -> Seq<char> {
    match j {
        JsonModel::Str(s) => s,
        _ => Seq::empty(),
    }
}

/// The member map an `Obj` model holds; empty for any other model.
pub open spec fn obj_of(j: JsonModel) -> Map<Seq<char>, JsonModel> {
    match j {
        JsonModel::Obj(m) => m,
        _ => Map::empty(),
    }
}

/// The element list an `Arr` model holds; empty for any other model.
pub open spec fn arr_of(j: JsonModel) -> Seq<JsonModel> {
    match j {
        JsonModel::Arr(a) => a,
        _ => Seq::empty(),
    }
}

/// The number a `Num` model holds; zero for any other model.
pub open spec fn num_of(j: JsonModel) -> u64 {
    match j {
        JsonModel::Num(n) => n,
        _ => 0,
    }
}

/// The boolean a `Bool` model holds; false for any other model.
pub open spec fn bool_of(j: JsonModel) -> bool {
    match j {
        JsonModel::Bool(b) => b,
        _ => false,
    }
}

/// A one-member list denotes the one-entry map.
pub proof fn lemma_pairs_to_map_singleton<V>(p: (Seq<char>, V))
    ensures
        pairs_to_map(seq![p]) == Map::empty().insert(p.0, p.1),
{
    assert(seq![p].drop_last() =~= Seq::<(Seq<char>, V)>::empty());
    assert(seq![p].last() == p);
    assert(pairs_to_map(Seq::<(Seq<char>, V)>::empty()) == Map::<Seq<char>, V>::empty());
}

/// Collapsing a list extended by one pair inserts that pair into the map.
pub proof fn lemma_pairs_to_map_push<V>(s: Seq<(Seq<char>, V)>, p: (Seq<char>, V))
    ensures
        pairs_to_map(s.push(p)) == pairs_to_map(s).insert(p.0, p.1),
{
    assert(s.push(p).drop_last() =~= s);
    assert(s.push(p).last() == p);
}

/// An object's map holds a key exactly when some member carries it.
pub proof fn lemma_obj_map_contains(members: Seq<(String, JsonValue)>, k: Seq<char>)
    ensures
        obj_map(members).contains_key(k) <==> (exists|j: int|
            0 <= j < members.len() && #[trigger] members[j].0@ == k),
{
    lemma_member_models_index(members);
    lemma_pairs_to_map_contains(member_models(members), k);
    let ms = member_models(members);
    if exists|j: int| 0 <= j < ms.len() && ms[j].0 == k {
        let j = choose|j: int| 0 <= j < ms.len() && ms[j].0 == k;
        assert(members[j].0@ == k);
    }
    if exists|j: int| 0 <= j < members.len() && members[j].0@ == k {
        let j = choose|j: int| 0 <= j < members.len() && #[trigger] members[j].0@ == k;
        assert(ms[j].0 == k);
    }
}

/// The map a member list denotes holds a key exactly when some member has it.
pub proof fn lemma_pairs_to_map_contains<V>(s: Seq<(Seq<char>, V)>, k: Seq<char>)
    ensures
        pairs_to_map(s).contains_key(k) <==> (exists|j: int| 0 <= j < s.len() && s[j].0 == k),
    decreases s.len(),
{
    if s.len() > 0 {
        let t = s.drop_last();
        lemma_pairs_to_map_contains(t, k);
        if s.last().0 == k {
            assert(s[s.len() - 1].0 == k);
        } else {
            assert(pairs_to_map(s).contains_key(k) <==> pairs_to_map(t).contains_key(k));
            assert((exists|j: int| 0 <= j < t.len() && t[j].0 == k) <==> (exists|j: int|
                0 <= j < s.len() && s[j].0 == k)) by {
                if exists|j: int| 0 <= j < t.len() && t[j].0 == k {
                    let j = choose|j: int| 0 <= j < t.len() && t[j].0 == k;
                    assert(s[j] == t[j]);
                    assert(0 <= j < s.len() && s[j].0 == k);
                }
                if exists|j: int| 0 <= j < s.len() && s[j].0 == k {
                    let j = choose|j: int| 0 <= j < s.len() && s[j].0 == k;
                    assert(j != s.len() - 1);
                    assert(t[j] == s[j]);
                    assert(0 <= j < t.len() && t[j].0 == k);
                }
            }
        }
    }
}

/// The map a member list denotes takes a key to the value of the last member
/// that carries the key.
pub proof fn lemma_pairs_to_map_last_wins<V>(s: Seq<(Seq<char>, V)>, k: Seq<char>, i: int)
    requires
        0 <= i < s.len(),
        s[i].0 == k,
        forall|j: int| i < j < s.len() ==> s[j].0 != k,
    ensures
        pairs_to_map(s).contains_key(k),
        pairs_to_map(s)[k] == s[i].1,
    decreases s.len(),
{
    if i == s.len() - 1 {
    } else {
        let t = s.drop_last();
        assert(t[i] == s[i]);
        assert forall|j: int| i < j < t.len() implies #[trigger] t[j].0 != k by {
            assert(t[j] == s[j]);
        }
        lemma_pairs_to_map_last_wins(t, k, i);
        assert(s[s.len() - 1].0 != k);
    }
}

/// The map the members of `v` denote, for an object `v`.
pub open spec fn obj_map(members: Seq<(String, JsonValue)>) -> Map<Seq<char>, JsonModel> {
    pairs_to_map(member_models(members))
}

/// Looks a key up among an object's members, as the object's map semantics
/// dictates: of several members with the key, the last wins.
pub fn lookup<'a>(members: &'a Vec<(String, JsonValue)>, key: &str) -> (r: Option<&'a JsonValue>)
    ensures
        match r {
            Some(v) => obj_map(members@).contains_key(key@) && model_of(*v) == obj_map(
                members@,
            ).index(key@),
            None => !obj_map(members@).contains_key(key@),
        },
{
    proof {
        lemma_member_models_index(members@);
        lemma_pairs_to_map_contains(member_models(members@), key@);
    }
    let mut i: usize = members.len();
    while i > 0
        invariant
            0 <= i <= members@.len(),
            forall|j: int| i <= j < members@.len() ==> #[trigger] members@[j].0@ != key@,
            member_models(members@).len() == members@.len(),
            forall|t: int|
                0 <= t < members@.len() ==> #[trigger] member_models(members@)[t] == (
                    members@[t].0@,
                    model_of(members@[t].1),
                ),
        decreases i,
    {
        i = i - 1;
        if crate::text::str_eq(members[i].0.as_str(), key) {
            proof {
                let ms = member_models(members@);
                assert(ms[i as int].0 == key@);
                assert(forall|j: int| i < j < ms.len() ==> #[trigger] ms[j].0 != key@);
                lemma_pairs_to_map_last_wins(ms, key@, i as int);
                assert(ms[i as int].1 == model_of(members@[i as int].1));
            }
            return Some(&members[i].1);
        }
    }
    proof {
        let ms = member_models(members@);
        assert(forall|j: int| 0 <= j < ms.len() ==> #[trigger] ms[j].0 != key@);
    }
    None
}

} // verus!
