//! A JSON document held as plain values, so that the request and response logic can read it.
use vstd::prelude::*;
use crate::text::str_eq;

verus! {

broadcast use vstd::std_specs::vec::group_vec_axioms;

/// A JSON number as the wire gave it: a non-negative integer, a negative integer,
/// or a binary64 / binary32 value kept by its bit pattern.
#[derive(Debug, Clone, Copy, PartialEq, Eq)]
pub enum JsonNumber {
    PosInt(u64),
    NegInt(i64),
    Float(u64),
    Float32(u32),
}

/// A JSON value; object members keep their order.
#[derive(Debug)]
pub enum Json {
    Null,
    Bool(bool),
    Number(JsonNumber),
    Str(String),
    Array(Vec<Json>),
    Object(Vec<(String, Json)>),
}

/// Mathematical model of [`Json`].
pub ghost enum JsonView {
    Null,
    Bool(bool),
    Number(JsonNumber),
    Str(Seq<char>),
    Array(Seq<JsonView>),
    Object(Seq<(Seq<char>, JsonView)>),
}

/// The model of one JSON value.
pub open spec fn json_view(j: Json) -> JsonView
    decreases j, 1int,
{
    match j {
        Json::Null => JsonView::Null,
        Json::Bool(b) => JsonView::Bool(b),
        Json::Number(n) => JsonView::Number(n),
        Json::Str(s) => JsonView::Str(s@),
        Json::Array(items) => JsonView::Array(items_view(items@)),
        Json::Object(members) => JsonView::Object(members_view(members@)),
    }
}

/// The models of a sequence of JSON values.
pub open spec fn items_view(s: Seq<Json>) -> Seq<JsonView>
    decreases s, 0int,
{
    if s.len() == 0 {
        Seq::empty()
    } else {
        items_view(s.subrange(0, s.len() - 1)).push(json_view(s[s.len() - 1]))
    }
}

/// The models of a sequence of object members.
pub open spec fn members_view(s: Seq<(String, Json)>) -> Seq<(Seq<char>, JsonView)>
    decreases s, 0int,
{
    if s.len() == 0 {
        Seq::empty()
    } else {
        members_view(s.subrange(0, s.len() - 1)).push((s[s.len() - 1].0@, json_view(s[s.len() - 1].1)))
    }
}

impl View for Json {
    type V = JsonView;

    open spec fn view(&self) -> JsonView {
        json_view(*self)
    }
}

pub proof fn lemma_items_view(s: Seq<Json>)
    ensures
        items_view(s).len() == s.len(),
        forall|i: int| 0 <= i < s.len() ==> #[trigger] items_view(s)[i] == json_view(s[i]),
    decreases s.len(),
{
    if s.len() > 0 {
        lemma_items_view(s.subrange(0, s.len() - 1));
    }
}

pub proof fn lemma_members_view(s: Seq<(String, Json)>)
    ensures
        members_view(s).len() == s.len(),
        forall|i: int| 0 <= i < s.len() ==> #[trigger] members_view(s)[i] == (s[i].0@, json_view(s[i].1)),
    decreases s.len(),
{
    if s.len() > 0 {
        lemma_members_view(s.subrange(0, s.len() - 1));
    }
}

/// The member of `members` named `key` (the first such one), if any.
pub open spec fn spec_member(members: Seq<(Seq<char>, JsonView)>, key: Seq<char>) -> Option<JsonView>
    decreases members.len(),
{
    if members.len() == 0 {
        None
    } else if members[0].0 == key {
        Some(members[0].1)
    } else {
        spec_member(members.subrange(1, members.len() as int), key)
    }
}

/// `v[key]` as serde_json indexes: the member of an object, `null` when absent or not an object.
pub open spec fn spec_get(v: JsonView, key: Seq<char>) -> JsonView {
    match v {
        JsonView::Object(members) => match spec_member(members, key) {
            Some(x) => x,
            None => JsonView::Null,
        },
        _ => JsonView::Null,
    }
}

/// `v[i]`: the element of an array, `null` when out of range or not an array.
pub open spec fn spec_at(v: JsonView, i: int) -> JsonView {
    match v {
        JsonView::Array(items) => if 0 <= i < items.len() { items[i] } else { JsonView::Null },
        _ => JsonView::Null,
    }
}

/// `v.as_str()`.
pub open spec fn spec_as_str(v: JsonView) -> Option<Seq<char>> {
    match v {
        JsonView::Str(s) => Some(s),
        _ => None,
    }
}

/// `v.as_u64()`.
pub open spec fn spec_as_u64(v: JsonView) -> Option<u64> {
    match v {
        JsonView::Number(JsonNumber::PosInt(n)) => Some(n),
        _ => None,
    }
}

impl Json {
    /// A copy with the same model.
    #[verifier::loop_isolation(false)]
    pub fn duplicate(&self) -> (r: Json)
        ensures
            r@ == self@,
        decreases self,
    {
        match self {
            Json::Null => Json::Null,
            Json::Bool(b) => Json::Bool(*b),
            Json::Number(n) => Json::Number(*n),
            Json::Str(s) => Json::Str(s.clone()),
            Json::Array(items) => {
                let mut out: Vec<Json> = Vec::new();
                let mut i: usize = 0;
                proof { lemma_items_view(items@); }
                while i < items.len()
                    invariant
                        i <= items.len(),
                        out@.len() == i,
                        forall|j: int| 0 <= j < i ==> json_view(#[trigger] out@[j]) == json_view(items@[j]),
                    decreases items.len() - i,
                {
                    proof { assert(decreases_to!(*self => *items)); assert(decreases_to!(items => items@)); assert(decreases_to!(items@ => items@[i as int])); }
                    let x = items[i].duplicate();
                    out.push(x);
                    i = i + 1;
                }
                proof {
                    lemma_items_view(out@);
                    assert(items_view(out@) =~= items_view(items@));
                }
                Json::Array(out)
            },
            Json::Object(members) => {
                let mut out: Vec<(String, Json)> = Vec::new();
                let mut i: usize = 0;
                proof { lemma_members_view(members@); }
                while i < members.len()
                    invariant
                        i <= members.len(),
                        out@.len() == i,
                        forall|j: int| 0 <= j < i ==> (#[trigger] out@[j]).0@ == members@[j].0@ && json_view(out@[j].1) == json_view(members@[j].1),
                    decreases members.len() - i,
                {
                    proof { assert(decreases_to!(members => members@)); assert(decreases_to!(members@ => members@[i as int])); assert(decreases_to!(members@[i as int] => members@[i as int].1)); assert(decreases_to!(*self => *members)); }
                    let k = members[i].0.clone();
                    let x = members[i].1.duplicate();
                    out.push((k, x));
                    i = i + 1;
                }
                proof {
                    lemma_members_view(out@);
                    assert(members_view(out@) =~= members_view(members@));
                }
                Json::Object(out)
            },
        }
    }

    /// Whether the value is `null`.
    pub fn is_null(&self) -> (r: bool)
        ensures
            r == (self@ is Null),
    {
        match self {
            Json::Null => true,
            _ => false,
        }
    }

    /// `self[key]`, as a copy.
    pub fn get(&self, key: &str) -> (r: Json)
        ensures
            r@ == spec_get(self@, key@),
    {
        match self {
            Json::Object(members) => {
                let ghost mv = members_view(members@);
                proof { lemma_members_view(members@); }
                let mut i: usize = 0;
                assert(mv.subrange(0, mv.len() as int) =~= mv);
                assert(self@ == JsonView::Object(mv));
                while i < members.len()
                    invariant
                        i <= members.len(),
                        mv == members_view(members@),
                        self@ == JsonView::Object(mv),
                        mv.len() == members@.len(),
                        forall|j: int| 0 <= j < members@.len() ==> #[trigger] mv[j] == (members@[j].0@, json_view(members@[j].1)),
                        spec_member(mv, key@) == spec_member(mv.subrange(i as int, mv.len() as int), key@),
                    decreases members.len() - i,
                {
                    let ghost rest = mv.subrange(i as int, mv.len() as int);
                    assert(rest.subrange(1, rest.len() as int) =~= mv.subrange(i + 1, mv.len() as int));
                    assert(rest[0] == mv[i as int]);
                    if str_eq(members[i].0.as_str(), key) {
                        let r = members[i].1.duplicate();
                        assert(spec_member(rest, key@) == Some(mv[i as int].1));
                        return r;
                    }
                    i = i + 1;
                }
                Json::Null
            },
            _ => Json::Null,
        }
    }

    /// `self[i]`, as a copy.
    pub fn at(&self, i: usize) -> (r: Json)
        ensures
            r@ == spec_at(self@, i as int),
    {
        match self {
            Json::Array(items) => {
                proof { lemma_items_view(items@); }
                if i < items.len() { items[i].duplicate() } else { Json::Null }
            },
            _ => Json::Null,
        }
    }

    /// `self.as_str()`, as an owned string.
    pub fn as_string(&self) -> (r: Option<String>)
        ensures
            r matches Some(s) ==> spec_as_str(self@) == Some(s@),
            r is None <==> spec_as_str(self@) is None,
    {
        match self {
            Json::Str(s) => Some(s.clone()),
            _ => None,
        }
    }

    /// `self.as_u64()`.
    pub fn as_u64(&self) -> (r: Option<u64>)
        ensures
            r == spec_as_u64(self@),
    {
        match self {
            Json::Number(JsonNumber::PosInt(n)) => Some(*n),
            _ => None,
        }
    }
}

} // verus!
