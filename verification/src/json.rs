//! A JSON value as the library reads and builds it.

use vstd::prelude::*;

use crate::text::str_eq;

verus! {

/// A JSON number: a non-negative integer, a negative integer, or a float
/// carried by its IEEE-754 bit pattern.
#[derive(Debug, Clone, Copy, PartialEq, Eq, Structural)]
pub enum JsonNumber {
    PosInt(u64),
    NegInt(i64),
    Float(u64),
}

#[derive(Debug, PartialEq)]
pub enum Json {
    Null,
    Bool(bool),
    Number(JsonNumber),
    Str(String),
    Array(Vec<Json>),
    Object(Vec<(String, Json)>),
}

/// The mathematical value of a [`Json`].
pub enum JsonV {
    Null,
    Bool(bool),
    Number(JsonNumber),
    Str(Seq<char>),
    Array(Seq<JsonV>),
    Object(Seq<(Seq<char>, JsonV)>),
}

pub open spec fn view_json(j: Json) -> JsonV
    decreases j,
{
    match j {
        Json::Null => JsonV::Null,
        Json::Bool(b) => JsonV::Bool(b),
        Json::Number(n) => JsonV::Number(n),
        Json::Str(s) => JsonV::Str(s@),
        Json::Array(v) => JsonV::Array(view_items(v@)),
        Json::Object(f) => JsonV::Object(view_fields(f@)),
    }
}

pub open spec fn view_items(s: Seq<Json>) -> Seq<JsonV>
    decreases s,
{
    if s.len() == 0 {
        Seq::empty()
    } else {
        view_items(s.subrange(0, s.len() - 1)).push(view_json(s[s.len() - 1]))
    }
}

pub open spec fn view_fields(s: Seq<(String, Json)>) -> Seq<(Seq<char>, JsonV)>
    decreases s,
{
    if s.len() == 0 {
        Seq::empty()
    } else {
        view_fields(s.subrange(0, s.len() - 1)).push(
            (s[s.len() - 1].0@, view_json(s[s.len() - 1].1)),
        )
    }
}

impl View for Json {
    type V = JsonV;

    open spec fn view(&self) -> JsonV {
        view_json(*self)
    }
}

} // verus!

verus! {

pub broadcast proof fn lemma_view_items(s: Seq<Json>)
    ensures
        #[trigger] view_items(s).len() == s.len(),
        forall|i: int|
            #![trigger view_items(s)[i]]
            0 <= i < s.len() ==> view_items(s)[i] == view_json(s[i]),
    decreases s.len(),
{
    if s.len() > 0 {
        let p = s.subrange(0, s.len() - 1);
        lemma_view_items(p);
        assert forall|i: int| 0 <= i < s.len() implies #[trigger] view_items(s)[i] == view_json(
            s[i],
        ) by {
            if i < s.len() - 1 {
                assert(p[i] == s[i]);
            }
        }
    }
}

pub broadcast proof fn lemma_view_fields(s: Seq<(String, Json)>)
    ensures
        #[trigger] view_fields(s).len() == s.len(),
        forall|i: int|
            #![trigger view_fields(s)[i]]
            0 <= i < s.len() ==> view_fields(s)[i] == (s[i].0@, view_json(s[i].1)),
    decreases s.len(),
{
    if s.len() > 0 {
        let p = s.subrange(0, s.len() - 1);
        lemma_view_fields(p);
        assert forall|i: int| 0 <= i < s.len() implies #[trigger] view_fields(s)[i] == (
            s[i].0@,
            view_json(s[i].1),
        ) by {
            if i < s.len() - 1 {
                assert(p[i] == s[i]);
            }
        }
    }
}

pub broadcast group group_json_view {
    lemma_view_items,
    lemma_view_fields,
}

/// The value stored under `k` in an object's fields: the first field with
/// that key, as serde_json's map holds at most one.
pub open spec fn obj_get(f: Seq<(Seq<char>, JsonV)>, k: Seq<char>) -> Option<JsonV>
    decreases f.len(),
{
    if f.len() == 0 {
        None
    } else if f[0].0 == k {
        Some(f[0].1)
    } else {
        obj_get(f.drop_first(), k)
    }
}

/// The fields after storing `v` under `k`: the first field with that key is
/// replaced in place, or a new field is appended.
pub open spec fn obj_insert(f: Seq<(Seq<char>, JsonV)>, k: Seq<char>, v: JsonV) -> Seq<
    (Seq<char>, JsonV),
>
    decreases f.len(),
{
    if f.len() == 0 {
        seq![(k, v)]
    } else if f[0].0 == k {
        f.update(0, (k, v))
    } else {
        seq![f[0]] + obj_insert(f.drop_first(), k, v)
    }
}

impl JsonV {
    pub open spec fn get(self, k: Seq<char>) -> Option<JsonV> {
        match self {
            JsonV::Object(f) => obj_get(f, k),
            _ => None,
        }
    }

    pub open spec fn as_str(self) -> Option<Seq<char>> {
        match self {
            JsonV::Str(s) => Some(s),
            _ => None,
        }
    }

    pub open spec fn as_bool(self) -> Option<bool> {
        match self {
            JsonV::Bool(b) => Some(b),
            _ => None,
        }
    }

    pub open spec fn as_array(self) -> Option<Seq<JsonV>> {
        match self {
            JsonV::Array(a) => Some(a),
            _ => None,
        }
    }

    pub open spec fn as_object(self) -> Option<Seq<(Seq<char>, JsonV)>> {
        match self {
            JsonV::Object(f) => Some(f),
            _ => None,
        }
    }

    /// serde_json's `as_i64`: integers that fit in an `i64`; floats give none.
    pub open spec fn as_i64(self) -> Option<int> {
        match self {
            JsonV::Number(JsonNumber::PosInt(n)) => if n <= i64::MAX {
                Some(n as int)
            } else {
                None
            },
            JsonV::Number(JsonNumber::NegInt(n)) => Some(n as int),
            _ => None,
        }
    }

    /// The value under `k`, or null where there is none
    /// (`get(k).cloned().unwrap_or(Value::Null)`).
    pub open spec fn get_or_null(self, k: Seq<char>) -> JsonV {
        match self.get(k) {
            Some(v) => v,
            None => JsonV::Null,
        }
    }

    /// The string under `k`, or the empty string
    /// (`get(k).and_then(Value::as_str).unwrap_or_default()`).
    pub open spec fn str_or_empty(self, k: Seq<char>) -> Seq<char> {
        match self.get(k) {
            Some(JsonV::Str(s)) => s,
            _ => Seq::empty(),
        }
    }
}

proof fn lemma_obj_get_skip(f: Seq<(Seq<char>, JsonV)>, k: Seq<char>, i: int)
    requires
        0 <= i <= f.len(),
        forall|j: int| 0 <= j < i ==> f[j].0 != k,
    ensures
        obj_get(f, k) == obj_get(f.skip(i), k),
    decreases i,
{
    if i > 0 {
        lemma_obj_get_skip(f.drop_first(), k, i - 1);
        assert(f.drop_first().skip(i - 1) =~= f.skip(i));
    } else {
        assert(f.skip(0) =~= f);
    }
}

proof fn lemma_obj_insert_at(f: Seq<(Seq<char>, JsonV)>, k: Seq<char>, v: JsonV, i: int)
    requires
        0 <= i < f.len(),
        f[i].0 == k,
        forall|j: int| 0 <= j < i ==> f[j].0 != k,
    ensures
        obj_insert(f, k, v) == f.update(i, (k, v)),
    decreases i,
{
    if i > 0 {
        lemma_obj_insert_at(f.drop_first(), k, v, i - 1);
        assert(seq![f[0]] + f.drop_first().update(i - 1, (k, v)) =~= f.update(i, (k, v)));
    }
}

proof fn lemma_obj_insert_absent(f: Seq<(Seq<char>, JsonV)>, k: Seq<char>, v: JsonV)
    requires
        forall|j: int| 0 <= j < f.len() ==> f[j].0 != k,
    ensures
        obj_insert(f, k, v) == f.push((k, v)),
    decreases f.len(),
{
    if f.len() > 0 {
        lemma_obj_insert_absent(f.drop_first(), k, v);
        assert(seq![f[0]] + f.drop_first().push((k, v)) =~= f.push((k, v)));
    } else {
        assert(seq![(k, v)] =~= f.push((k, v)));
    }
}

/// Reading a key back after storing it gives what was stored.
pub proof fn lemma_obj_get_insert_same(f: Seq<(Seq<char>, JsonV)>, k: Seq<char>, v: JsonV)
    ensures
        obj_get(obj_insert(f, k, v), k) == Some(v),
    decreases f.len(),
{
    if f.len() > 0 && f[0].0 != k {
        lemma_obj_get_insert_same(f.drop_first(), k, v);
        assert((seq![f[0]] + obj_insert(f.drop_first(), k, v)).drop_first() =~= obj_insert(
            f.drop_first(),
            k,
            v,
        ));
    }
}

/// Storing under one key leaves every other key as it was.
pub proof fn lemma_obj_get_insert_other(
    f: Seq<(Seq<char>, JsonV)>,
    k: Seq<char>,
    v: JsonV,
    k2: Seq<char>,
)
    requires
        k2 != k,
    ensures
        obj_get(obj_insert(f, k, v), k2) == obj_get(f, k2),
    decreases f.len(),
{
    if f.len() == 0 {
        let s1 = seq![(k, v)];
        assert(s1.len() == 1 && s1[0].0 == k);
        assert(s1.drop_first() =~= Seq::<(Seq<char>, JsonV)>::empty());
        assert(obj_get(s1, k2) == obj_get(s1.drop_first(), k2));
    } else if f[0].0 == k {
        let g = f.update(0, (k, v));
        assert(g.len() == f.len());
        assert(g[0].0 == k);
        assert(g.drop_first() =~= f.drop_first());
        assert(obj_get(g, k2) == obj_get(g.drop_first(), k2));
        assert(obj_get(f, k2) == obj_get(f.drop_first(), k2));
    } else {
        lemma_obj_get_insert_other(f.drop_first(), k, v, k2);
        let h = seq![f[0]] + obj_insert(f.drop_first(), k, v);
        assert(h.len() > 0 && h[0] == f[0]);
        assert(h.drop_first() =~= obj_insert(f.drop_first(), k, v));
        assert(obj_get(h, k2) == if h[0].0 == k2 {
            Some(h[0].1)
        } else {
            obj_get(h.drop_first(), k2)
        });
    }
}

/// No two fields of an object share a key, as in serde_json's map.
pub open spec fn distinct_keys(f: Seq<(Seq<char>, JsonV)>) -> bool {
    forall|i: int, j: int| 0 <= i < j < f.len() ==> #[trigger] f[i].0 != #[trigger] f[j].0
}

/// A well-formed JSON value: every object in it, at any depth, has
/// distinct keys.
pub open spec fn json_wf(v: JsonV) -> bool
    decreases v,
{
    match v {
        JsonV::Array(a) => forall|i: int| 0 <= i < a.len() ==> json_wf(#[trigger] a[i]),
        JsonV::Object(f) => distinct_keys(f) && forall|i: int|
            0 <= i < f.len() ==> json_wf(#[trigger] f[i].1),
        _ => true,
    }
}

/// What well-formedness asks of each kind of value.
pub proof fn lemma_json_wf_unfold(v: JsonV)
    ensures
        json_wf(v) == match v {
            JsonV::Array(a) => forall|i: int| 0 <= i < a.len() ==> json_wf(#[trigger] a[i]),
            JsonV::Object(f) => distinct_keys(f) && forall|i: int|
                0 <= i < f.len() ==> json_wf(#[trigger] f[i].1),
            _ => true,
        },
{
}

/// Storing under a key keeps an object well formed when the stored value is.
pub proof fn lemma_obj_insert_wf(f: Seq<(Seq<char>, JsonV)>, k: Seq<char>, v: JsonV)
    requires
        json_wf(JsonV::Object(f)),
        json_wf(v),
    ensures
        json_wf(JsonV::Object(obj_insert(f, k, v))),
        forall|i: int| 0 <= i < obj_insert(f, k, v).len() ==> (#[trigger] obj_insert(f, k, v)[i]).0 == k
            || exists|j: int| 0 <= j < f.len() && f[j].0 == obj_insert(f, k, v)[i].0,
    decreases f.len(),
{
    if f.len() == 0 {
        assert(json_wf(JsonV::Object(seq![(k, v)])));
    } else if f[0].0 == k {
        let g = f.update(0, (k, v));
        assert forall|i: int| 0 <= i < g.len() implies (#[trigger] g[i]).0 == k || exists|j: int|
            0 <= j < f.len() && f[j].0 == g[i].0 by {
            if i > 0 {
                assert(f[i].0 == g[i].0);
            }
        }
        assert(json_wf(JsonV::Object(g)));
    } else {
        let t = f.drop_first();
        assert(json_wf(JsonV::Object(t))) by {
            assert forall|i: int| 0 <= i < t.len() implies json_wf(#[trigger] t[i].1) by {
                assert(t[i] == f[i + 1]);
            }
            assert forall|i: int, j: int| 0 <= i < j < t.len() implies #[trigger] t[i].0
                != #[trigger] t[j].0 by {
                assert(t[i] == f[i + 1] && t[j] == f[j + 1]);
            }
        }
        lemma_obj_insert_wf(t, k, v);
        let r = obj_insert(t, k, v);
        let h = seq![f[0]] + r;
        assert(obj_insert(f, k, v) == h);
        assert forall|i: int| 0 <= i < h.len() implies (#[trigger] h[i]).0 == k || exists|j: int|
            0 <= j < f.len() && f[j].0 == h[i].0 by {
            if i == 0 {
                assert(f[0].0 == h[0].0);
            } else {
                assert(h[i] == r[i - 1]);
                if r[i - 1].0 != k {
                    let j = choose|j: int| 0 <= j < t.len() && t[j].0 == r[i - 1].0;
                    assert(f[j + 1].0 == h[i].0);
                }
            }
        }
        assert forall|i: int, j: int| 0 <= i < j < h.len() implies #[trigger] h[i].0
            != #[trigger] h[j].0 by {
            if i == 0 {
                assert(h[j] == r[j - 1]);
                if r[j - 1].0 != k {
                    let m = choose|m: int| 0 <= m < t.len() && t[m].0 == r[j - 1].0;
                    assert(t[m] == f[m + 1]);
                }
            } else {
                assert(h[i] == r[i - 1] && h[j] == r[j - 1]);
            }
        }
        assert forall|i: int| 0 <= i < h.len() implies json_wf(#[trigger] h[i].1) by {
            if i > 0 {
                assert(h[i] == r[i - 1]);
            }
        }
    }
}

/// The object built by storing a well-formed value into a well-formed object
/// is well formed.
pub broadcast proof fn lemma_obj_insert_keeps_wf(
    f: Seq<(Seq<char>, JsonV)>,
    k: Seq<char>,
    v: JsonV,
)
    requires
        json_wf(JsonV::Object(f)),
        json_wf(v),
    ensures
        #[trigger] json_wf(JsonV::Object(obj_insert(f, k, v))),
{
    lemma_obj_insert_wf(f, k, v);
}

/// What `obj_get` finds is the value of one of the fields.
pub(crate) proof fn lemma_obj_get_found(f: Seq<(Seq<char>, JsonV)>, k: Seq<char>)
    ensures
        obj_get(f, k) matches Some(x) ==> exists|i: int| 0 <= i < f.len() && #[trigger] f[i] == (k, x),
    decreases f.len(),
{
    if f.len() > 0 && f[0].0 != k {
        lemma_obj_get_found(f.drop_first(), k);
        if let Some(x) = obj_get(f, k) {
            let i = choose|i: int| 0 <= i < f.drop_first().len() && #[trigger] f.drop_first()[i] == (k, x);
            assert(f[i + 1] == (k, x));
        }
    } else if f.len() > 0 {
        assert(f[0] == (k, f[0].1));
    }
}

/// A value read out of a well-formed value is well formed.
pub broadcast proof fn lemma_get_keeps_wf(v: JsonV, k: Seq<char>)
    requires
        json_wf(v),
    ensures
        #[trigger] json_wf(v.get_or_null(k)),
{
    if let JsonV::Object(f) = v {
        lemma_obj_get_found(f, k);
        if let Some(x) = obj_get(f, k) {
            let i = choose|i: int| 0 <= i < f.len() && #[trigger] f[i] == (k, x);
            assert(json_wf(f[i].1));
        }
    }
}

/// A field read out of a well-formed object is well formed.
pub proof fn lemma_obj_get_wf(f: Seq<(Seq<char>, JsonV)>, k: Seq<char>)
    requires
        json_wf(JsonV::Object(f)),
    ensures
        obj_get(f, k) matches Some(x) ==> json_wf(x),
{
    lemma_get_keeps_wf(JsonV::Object(f), k);
}

pub broadcast group group_json_wf {
    lemma_obj_insert_keeps_wf,
    lemma_get_keeps_wf,
}

/// In a well-formed object a key's value is the one field that carries the
/// key: reading by the first match is reading by the key.
pub proof fn lemma_wf_get_is_the_field(f: Seq<(Seq<char>, JsonV)>, i: int)
    requires
        json_wf(JsonV::Object(f)),
        0 <= i < f.len(),
    ensures
        obj_get(f, f[i].0) == Some(f[i].1),
{
    assert forall|j: int| 0 <= j < i implies f[j].0 != f[i].0 by {}
    lemma_obj_get_skip(f, f[i].0, i);
    assert(f.skip(i)[0] == f[i]);
}

#[verifier::loop_isolation(false)]
fn clone_json(j: &Json) -> (r: Json)
    ensures
        r@ == j@,
    decreases j,
{
        broadcast use group_json_view;

        match j {
            Json::Null => Json::Null,
            Json::Bool(b) => Json::Bool(*b),
            Json::Number(n) => Json::Number(*n),
            Json::Str(s) => Json::Str(s.clone()),
            Json::Array(items) => {
                let mut out: Vec<Json> = Vec::new();
                let mut i: usize = 0;
                while i < items.len()
                    invariant
                        i <= items@.len(),
                        out@.len() == i,
                        forall|j: int| 0 <= j < i ==> view_json(#[trigger] out@[j]) == view_json(
                            items@[j],
                        ),
                    decreases items@.len() - i,
                {
                    let c = clone_json(&items[i]);
                    out.push(c);
                    i = i + 1;
                }
                proof {
                    lemma_view_items(out@);
                    lemma_view_items(items@);
                }
                assert(view_items(out@) =~= view_items(items@));
                Json::Array(out)
            },
            Json::Object(fields) => {
                let mut out: Vec<(String, Json)> = Vec::new();
                let mut i: usize = 0;
                while i < fields.len()
                    invariant
                        i <= fields@.len(),
                        out@.len() == i,
                        forall|j: int|
                            0 <= j < i ==> (#[trigger] out@[j]).0@ == fields@[j].0@ && view_json(
                                out@[j].1,
                            ) == view_json(fields@[j].1),
                    decreases fields@.len() - i,
                {
                    let k = fields[i].0.clone();
                    let c = clone_json(&fields[i].1);
                    out.push((k, c));
                    i = i + 1;
                }
                proof {
                    lemma_view_fields(out@);
                    lemma_view_fields(fields@);
                }
                assert(view_fields(out@) =~= view_fields(fields@));
                Json::Object(out)
            },
        }
    }

impl Clone for Json {
    fn clone(&self) -> (r: Self)
        ensures
            r@ == self@,
    {
        clone_json(self)
    }
}

/// The JSON value of an integer, as serde_json stores one: non-negative
/// numbers as `PosInt`, negative ones as `NegInt`.
pub open spec fn int_json(i: int) -> JsonV {
    if i >= 0 {
        JsonV::Number(JsonNumber::PosInt(i as u64))
    } else {
        JsonV::Number(JsonNumber::NegInt(i as i64))
    }
}

impl Json {
    pub fn null() -> (r: Json)
        ensures
            r@ == JsonV::Null,
            json_wf(r@),
    {
        Json::Null
    }

    pub fn string(s: &str) -> (r: Json)
        ensures
            r@ == JsonV::Str(s@),
            json_wf(r@),
    {
        Json::Str(s.to_owned())
    }

    pub fn integer(i: i64) -> (r: Json)
        ensures
            r@ == int_json(i as int),
            json_wf(r@),
    {
        if i >= 0 {
            Json::Number(JsonNumber::PosInt(i as u64))
        } else {
            Json::Number(JsonNumber::NegInt(i))
        }
    }

    pub fn uint(n: u64) -> (r: Json)
        ensures
            r@ == JsonV::Number(JsonNumber::PosInt(n)),
            json_wf(r@),
    {
        Json::Number(JsonNumber::PosInt(n))
    }

    pub fn empty_object() -> (r: Json)
        ensures
            r@ == JsonV::Object(Seq::empty()),
            json_wf(r@),
    {
        let f: Vec<(String, Json)> = Vec::new();
        proof {
            lemma_view_fields(f@);
        }
        assert(view_fields(f@) =~= Seq::<(Seq<char>, JsonV)>::empty());
        Json::Object(f)
    }

    pub fn is_null(&self) -> (r: bool)
        ensures
            r == (self@ == JsonV::Null),
    {
        match self {
            Json::Null => true,
            _ => false,
        }
    }

    pub fn as_str(&self) -> (r: Option<&str>)
        ensures
            match r {
                Some(s) => self@.as_str() == Some(s@),
                None => self@.as_str() is None,
            },
    {
        match self {
            Json::Str(s) => Some(s.as_str()),
            _ => None,
        }
    }

    pub fn as_bool(&self) -> (r: Option<bool>)
        ensures
            r == self@.as_bool(),
    {
        match self {
            Json::Bool(b) => Some(*b),
            _ => None,
        }
    }

    pub fn as_i64(&self) -> (r: Option<i64>)
        ensures
            match r {
                Some(v) => self@.as_i64() == Some(v as int),
                None => self@.as_i64() is None,
            },
    {
        match self {
            Json::Number(JsonNumber::PosInt(n)) => if *n <= 0x7fff_ffff_ffff_ffff {
                Some(*n as i64)
            } else {
                None
            },
            Json::Number(JsonNumber::NegInt(n)) => Some(*n),
            _ => None,
        }
    }

    pub fn as_array(&self) -> (r: Option<&Vec<Json>>)
        ensures
            match r {
                Some(a) => self@.as_array() == Some(view_items(a@)),
                None => self@.as_array() is None,
            },
    {
        match self {
            Json::Array(a) => Some(a),
            _ => None,
        }
    }

    pub fn as_object(&self) -> (r: Option<&Vec<(String, Json)>>)
        ensures
            match r {
                Some(f) => self@.as_object() == Some(view_fields(f@)),
                None => self@.as_object() is None,
            },
    {
        match self {
            Json::Object(f) => Some(f),
            _ => None,
        }
    }

    /// The value stored under `key`, when this is an object holding one.
    pub fn get(&self, key: &str) -> (r: Option<&Json>)
        ensures
            match r {
                Some(v) => self@.get(key@) == Some(v@),
                None => self@.get(key@) is None,
            },
    {
        match self {
            Json::Object(fields) => get_field(fields, key),
            _ => None,
        }
    }

    /// `get(key).cloned().unwrap_or(Value::Null)`.
    pub fn get_or_null(&self, key: &str) -> (r: Json)
        ensures
            r@ == self@.get_or_null(key@),
    {
        match self.get(key) {
            Some(v) => v.clone(),
            None => Json::Null,
        }
    }

    /// `get(key).and_then(Value::as_str).unwrap_or_default()`.
    pub fn str_or_empty(&self, key: &str) -> (r: &str)
        ensures
            r@ == self@.str_or_empty(key@),
    {
        proof {
            reveal_strlit("");
        }
        match self.get(key) {
            Some(v) => match v.as_str() {
                Some(s) => s,
                None => "",
            },
            None => "",
        }
    }
}

/// The value of the first field stored under `key`.
pub fn get_field<'a>(fields: &'a Vec<(String, Json)>, key: &str) -> (r: Option<&'a Json>)
    ensures
        match r {
            Some(v) => obj_get(view_fields(fields@), key@) == Some(v@),
            None => obj_get(view_fields(fields@), key@) is None,
        },
{
    broadcast use group_json_view;

    let ghost f = view_fields(fields@);
    proof {
        lemma_view_fields(fields@);
    }
    let mut i: usize = 0;
    while i < fields.len()
        invariant
            f == view_fields(fields@),
            f.len() == fields@.len(),
            i <= fields@.len(),
            forall|j: int| 0 <= j < i ==> f[j].0 != key@,
        decreases fields@.len() - i,
    {
        proof {
            lemma_view_fields(fields@);
        }
        assert(f[i as int] == (fields@[i as int].0@, view_json(fields@[i as int].1)));
        if str_eq(fields[i].0.as_str(), key) {
            proof {
                lemma_obj_get_skip(f, key@, i as int);
                assert(f.skip(i as int)[0] == f[i as int]);
            }
            return Some(&fields[i].1);
        }
        i = i + 1;
    }
    proof {
        lemma_obj_get_skip(f, key@, i as int);
        assert(f.skip(i as int).len() == 0);
    }
    None
}

/// Stores `value` under `key`: the first field with that key gets the new
/// value, or a new field is appended (`serde_json::Map::insert`).
pub fn insert_field(fields: &mut Vec<(String, Json)>, key: &str, value: Json)
    ensures
        view_fields(final(fields)@) == obj_insert(view_fields(old(fields)@), key@, value@),
        json_wf(JsonV::Object(view_fields(old(fields)@))) && json_wf(value@) ==> json_wf(
            JsonV::Object(view_fields(final(fields)@)),
        ),
{
    broadcast use group_json_view;

    let ghost f = view_fields(fields@);
    proof {
        lemma_view_fields(fields@);
    }
    let mut i: usize = 0;
    while i < fields.len()
        invariant
            fields@ == old(fields)@,
            f == view_fields(fields@),
            f.len() == fields@.len(),
            i <= fields@.len(),
            forall|j: int| 0 <= j < i ==> f[j].0 != key@,
        decreases fields@.len() - i,
    {
        proof {
            lemma_view_fields(fields@);
        }
        assert(f[i as int] == (fields@[i as int].0@, view_json(fields@[i as int].1)));
        if str_eq(fields[i].0.as_str(), key) {
            proof {
                lemma_obj_insert_at(f, key@, value@, i as int);
            }
            let ghost vv = value@;
            let ghost before = fields@;
            fields.set(i, (key.to_owned(), value));
            proof {
                lemma_view_fields(fields@);
                lemma_view_fields(before);
            }
            assert(view_fields(fields@) =~= f.update(i as int, (key@, vv)));
            proof {
                if json_wf(JsonV::Object(f)) && json_wf(vv) {
                    lemma_obj_insert_wf(f, key@, vv);
                }
            }
            return;
        }
        i = i + 1;
    }
    proof {
        lemma_obj_insert_absent(f, key@, value@);
    }
    let ghost vv = value@;
    let ghost before = fields@;
    fields.push((key.to_owned(), value));
    proof {
        lemma_view_fields(fields@);
        lemma_view_fields(before);
    }
    assert(view_fields(fields@) =~= f.push((key@, vv)));
    proof {
        if json_wf(JsonV::Object(f)) && json_wf(vv) {
            lemma_obj_insert_wf(f, key@, vv);
        }
    }
}

/// The character sequence that serde_json writes for one character of a
/// string: quote and backslash are escaped, the C0 controls become `\b`,
/// `\t`, `\n`, `\f`, `\r` or `\u00XX` (lower-case hex), all else is kept.
pub open spec fn escape_char(c: char) -> Seq<char> {
    let u = c as u32;
    if c == '"' {
        seq!['\\', '"']
    } else if c == '\\' {
        seq!['\\', '\\']
    } else if u == 0x08 {
        seq!['\\', 'b']
    } else if u == 0x09 {
        seq!['\\', 't']
    } else if u == 0x0a {
        seq!['\\', 'n']
    } else if u == 0x0c {
        seq!['\\', 'f']
    } else if u == 0x0d {
        seq!['\\', 'r']
    } else if u < 0x20 {
        seq!['\\', 'u', '0', '0', hex_digit((u / 16) as int), hex_digit((u % 16) as int)]
    } else {
        seq![c]
    }
}

pub open spec fn hex_digit(d: int) -> char {
    if d < 10 {
        (48 + d) as char
    } else {
        (87 + d) as char
    }
}

pub open spec fn escape_chars(s: Seq<char>) -> Seq<char>
    decreases s.len(),
{
    if s.len() == 0 {
        Seq::empty()
    } else {
        escape_chars(s.drop_last()) + escape_char(s.last())
    }
}

/// The JSON string literal of `s`, quotes included.
pub open spec fn string_literal_spec(s: Seq<char>) -> Seq<char> {
    seq!['"'] + escape_chars(s) + seq!['"']
}

/// The JSON text of a string (`Value::String(s).to_string()`).
#[verifier::external_body]
pub(crate) fn string_literal(s: &str) -> (r: String)
    ensures
        r@ == string_literal_spec(s@),
{
    serde_json::Value::String(s.to_owned()).to_string()
}

} // verus!

verus! {

/// The inside of a double-quoted JavaScript or JSON string that stays one
/// string: every backslash is followed by the character it escapes, and no
/// unescaped quote or control character occurs.
pub open spec fn stays_in_string(t: Seq<char>) -> bool
    decreases t.len(),
{
    if t.len() == 0 {
        true
    } else if t[0] == '\\' {
        t.len() >= 2 && stays_in_string(t.skip(2))
    } else {
        t[0] != '"' && (t[0] as u32) >= 0x20 && stays_in_string(t.skip(1))
    }
}

proof fn lemma_stays_concat(a: Seq<char>, b: Seq<char>)
    requires
        stays_in_string(a),
        stays_in_string(b),
    ensures
        stays_in_string(a + b),
    decreases a.len(),
{
    if a.len() == 0 {
        assert(a + b =~= b);
    } else if a[0] == '\\' {
        lemma_stays_concat(a.skip(2), b);
        assert((a + b).skip(2) =~= a.skip(2) + b);
    } else {
        lemma_stays_concat(a.skip(1), b);
        assert((a + b).skip(1) =~= a.skip(1) + b);
    }
}

proof fn lemma_plain_stays(t: Seq<char>)
    requires
        forall|i: int|
            0 <= i < t.len() ==> #[trigger] t[i] != '"' && t[i] != '\\' && (t[i] as u32) >= 0x20,
    ensures
        stays_in_string(t),
    decreases t.len(),
{
    if t.len() > 0 {
        lemma_plain_stays(t.skip(1));
    }
}

proof fn lemma_hex_digit(d: int)
    requires
        0 <= d < 16,
    ensures
        hex_digit(d) != '"',
        hex_digit(d) != '\\',
        (hex_digit(d) as u32) >= 0x20,
{
    if d < 10 {
        assert(((48 + d) as char) as u32 == 48 + d);
    } else {
        assert(((87 + d) as char) as u32 == 87 + d);
    }
}

proof fn lemma_escape_char_stays(c: char)
    ensures
        stays_in_string(escape_char(c)),
{
    let e = escape_char(c);
    let u = c as u32;
    if c == '"' || c == '\\' || u == 0x08 || u == 0x09 || u == 0x0a || u == 0x0c || u == 0x0d {
        assert(e.len() == 2 && e[0] == '\\');
        assert(e.skip(2) =~= Seq::<char>::empty());
        assert(stays_in_string(e.skip(2)));
    } else if u < 0x20 {
        let h1 = hex_digit((u / 16) as int);
        let h2 = hex_digit((u % 16) as int);
        lemma_hex_digit((u / 16) as int);
        lemma_hex_digit((u % 16) as int);
        assert(e == seq!['\\', 'u', '0', '0', h1, h2]);
        assert(e.len() == 6 && e[0] == '\\');
        let t = e.skip(2);
        assert(t =~= seq!['0', '0', h1, h2]);
        lemma_plain_stays(t);
    } else {
        assert(e == seq![c]);
        lemma_plain_stays(e);
    }
}

proof fn lemma_escape_chars_stays(s: Seq<char>)
    ensures
        stays_in_string(escape_chars(s)),
    decreases s.len(),
{
    if s.len() > 0 {
        lemma_escape_chars_stays(s.drop_last());
        lemma_escape_char_stays(s.last());
        lemma_stays_concat(escape_chars(s.drop_last()), escape_char(s.last()));
    }
}

/// Whatever a string holds, its JSON literal is a single string token: it
/// opens and closes with a quote, and nothing inside can end it early. This
/// is what keeps a stylesheet, a message or imported settings embedded in a
/// page script from breaking out into script of their own.
pub proof fn lemma_string_literal_is_one_token(s: Seq<char>)
    ensures
        string_literal_spec(s).len() >= 2,
        string_literal_spec(s)[0] == '"',
        string_literal_spec(s).last() == '"',
        stays_in_string(string_literal_spec(s).subrange(1, string_literal_spec(s).len() - 1)),
{
    let l = string_literal_spec(s);
    assert(l.subrange(1, l.len() - 1) =~= escape_chars(s));
    lemma_escape_chars_stays(s);
}

} // verus!

