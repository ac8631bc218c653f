//! A JSON value as the library reads and builds it, with its mathematical view.
//!
//! Object members keep the order in which the parser handed them over, and a
//! key occurs at most once in an object produced by a parser; lookups return
//! the first member with the key.

use vstd::prelude::*;

verus! {

/// A JSON document. Numbers are kept as their literal text.
pub enum Json {
    Null,
    Bool(bool),
    Number(String),
    Str(String),
    Array(Vec<Json>),
    Object(Vec<(String, Json)>),
}

/// The mathematical model of a [`Json`] value.
pub enum JsonV {
    Null,
    Bool(bool),
    Number(Seq<char>),
    Str(Seq<char>),
    Array(Seq<JsonV>),
    Object(Seq<(Seq<char>, JsonV)>),
}

pub open spec fn view_items(s: Seq<Json>) -> Seq<JsonV>
    decreases s,
{
    if s.len() == 0 {
        Seq::empty()
    } else {
        seq![view_json(s[0])] + view_items(s.subrange(1, s.len() as int))
    }
}

pub open spec fn view_members(s: Seq<(String, Json)>) -> Seq<(Seq<char>, JsonV)>
    decreases s,
{
    if s.len() == 0 {
        Seq::empty()
    } else {
        seq![(s[0].0@, view_json(s[0].1))] + view_members(s.subrange(1, s.len() as int))
    }
}

pub open spec fn view_json(j: Json) -> JsonV
    decreases j,
{
    match j {
        Json::Null => JsonV::Null,
        Json::Bool(b) => JsonV::Bool(b),
        Json::Number(n) => JsonV::Number(n@),
        Json::Str(s) => JsonV::Str(s@),
        Json::Array(v) => JsonV::Array(view_items(v@)),
        Json::Object(m) => JsonV::Object(view_members(m@)),
    }
}

impl View for Json {
    type V = JsonV;

    open spec fn view(&self) -> JsonV {
        view_json(*self)
    }
}


pub proof fn lemma_view_items(s: Seq<Json>)
    ensures
        view_items(s).len() == s.len(),
        forall|i: int| 0 <= i < s.len() ==> #[trigger] view_items(s)[i] == view_json(s[i]),
    decreases s.len(),
{
    if s.len() > 0 {
        let rest = s.subrange(1, s.len() as int);
        lemma_view_items(rest);
        assert forall|i: int| 0 <= i < s.len() implies #[trigger] view_items(s)[i] == view_json(
            s[i],
        ) by {
            if i > 0 {
                assert(rest[i - 1] == s[i]);
            }
        }
    }
}

pub proof fn lemma_view_members(s: Seq<(String, Json)>)
    ensures
        view_members(s).len() == s.len(),
        forall|i: int|
            0 <= i < s.len() ==> #[trigger] view_members(s)[i] == (s[i].0@, view_json(s[i].1)),
    decreases s.len(),
{
    if s.len() > 0 {
        let rest = s.subrange(1, s.len() as int);
        lemma_view_members(rest);
        assert forall|i: int| 0 <= i < s.len() implies #[trigger] view_members(s)[i] == (
            s[i].0@,
            view_json(s[i].1),
        ) by {
            if i > 0 {
                assert(rest[i - 1] == s[i]);
            }
        }
    }
}

/// The value of the first member named `key` at or after position `i`.
pub open spec fn member_from(m: Seq<(Seq<char>, JsonV)>, key: Seq<char>, i: int) -> Option<JsonV>
    decreases m.len() - i,
{
    if i < 0 || i >= m.len() {
        None
    } else if m[i].0 == key {
        Some(m[i].1)
    } else {
        member_from(m, key, i + 1)
    }
}

/// `Value::get` with a string key: the member of an object, `None` for anything else.
pub open spec fn get_spec(v: JsonV, key: Seq<char>) -> Option<JsonV> {
    match v {
        JsonV::Object(m) => member_from(m, key, 0),
        _ => None,
    }
}

/// `Value::as_str`.
pub open spec fn str_spec(v: JsonV) -> Option<Seq<char>> {
    match v {
        JsonV::Str(s) => Some(s),
        _ => None,
    }
}

impl Json {
    /// `Value::get` with a string key.
    pub fn get(&self, key: &str) -> (r: Option<&Json>)
        ensures
            match r {
                Some(x) => get_spec(self@, key@) == Some(x@),
                None => get_spec(self@, key@) is None,
            },
    {
        match self {
            Json::Object(m) => {
                proof {
                    lemma_view_members(m@);
                }
                let ghost mv = view_members(m@);
                let mut i: usize = 0;
                while i < m.len()
                    invariant
                        i <= m@.len(),
                        mv == view_members(m@),
                        get_spec(self@, key@) == member_from(mv, key@, 0),
                        mv.len() == m@.len(),
                        forall|k: int|
                            0 <= k < m@.len() ==> #[trigger] mv[k] == (m@[k].0@, view_json(m@[k].1)),
                        member_from(mv, key@, 0) == member_from(mv, key@, i as int),
                    decreases m.len() - i,
                {
                    if crate::text::str_eq(m[i].0.as_str(), key) {
                        assert(mv[i as int].0 == key@);
                        return Some(&m[i].1);
                    }
                    i = i + 1;
                }
                None
            },
            _ => None,
        }
    }

    /// `Value::as_str`.
    pub fn as_str(&self) -> (r: Option<&String>)
        ensures
            match r {
                Some(s) => str_spec(self@) == Some(s@),
                None => str_spec(self@) is None,
            },
    {
        match self {
            Json::Str(s) => Some(s),
            _ => None,
        }
    }

    /// `Value::as_array`.
    pub fn as_array(&self) -> (r: Option<&Vec<Json>>)
        ensures
            match r {
                Some(a) => self@ == JsonV::Array(view_items(a@)),
                None => !(self@ is Array),
            },
    {
        match self {
            Json::Array(a) => Some(a),
            _ => None,
        }
    }

    /// A copy of the value.
    pub fn duplicate(&self) -> (r: Json)
        ensures
            r@ == self@,
        decreases self,
    {
        match self {
            Json::Null => Json::Null,
            Json::Bool(b) => Json::Bool(*b),
            Json::Number(n) => Json::Number(n.clone()),
            Json::Str(s) => Json::Str(s.clone()),
            Json::Array(v) => {
                let mut out: Vec<Json> = Vec::new();
                let mut i: usize = 0;
                proof {
                    lemma_view_items(v@);
                }
                while i < v.len()
                    invariant
                        i <= v@.len(),
                        *self == Json::Array(*v),
                        view_items(v@).len() == v@.len(),
                        forall|k: int| 0 <= k < v@.len() ==> #[trigger] view_items(v@)[k] == view_json(v@[k]),
                        out@.len() == i,
                        forall|k: int| 0 <= k < i ==> #[trigger] view_json(out@[k]) == view_json(v@[k]),
                    decreases v.len() - i,
                {
                    assert(decreases_to!(*self => (*self)->Array_0));
                    assert(decreases_to!(*v => v@));
                    assert(decreases_to!(v@ => v@[i as int]));
                    let c = v[i].duplicate();
                    out.push(c);
                    i = i + 1;
                }
                proof {
                    lemma_view_items(out@);
                    assert(view_items(out@) =~= view_items(v@));
                }
                Json::Array(out)
            },
            Json::Object(m) => {
                let mut out: Vec<(String, Json)> = Vec::new();
                let mut i: usize = 0;
                proof {
                    lemma_view_members(m@);
                }
                while i < m.len()
                    invariant
                        i <= m@.len(),
                        *self == Json::Object(*m),
                        view_members(m@).len() == m@.len(),
                        forall|k: int| 0 <= k < m@.len() ==> #[trigger] view_members(m@)[k] == (m@[k].0@, view_json(m@[k].1)),
                        out@.len() == i,
                        forall|k: int| 0 <= k < i ==> #[trigger] out@[k].0@ == m@[k].0@ && view_json(out@[k].1) == view_json(m@[k].1),
                    decreases m.len() - i,
                {
                    let k = m[i].0.clone();
                    assert(decreases_to!(*self => (*self)->Object_0));
                    assert(decreases_to!(*m => m@));
                    assert(decreases_to!(m@ => m@[i as int]));
                    assert(decreases_to!(m@[i as int] => m@[i as int].1));
                    let c = m[i].1.duplicate();
                    out.push((k, c));
                    i = i + 1;
                }
                proof {
                    lemma_view_members(out@);
                    assert(view_members(out@) =~= view_members(m@));
                }
                Json::Object(out)
            },
        }
    }
}

} // verus!
