//! JSON documents as the library builds and reads them.
use vstd::prelude::*;
use crate::text::owned;

verus! {

/// A JSON document.
#[derive(Debug, PartialEq, Eq)]
pub enum JsonValue {
    Null,
    Bool(bool),
    /// A number, kept as its JSON text.
    Number(String),
    String(String),
    Array(Vec<JsonValue>),
    /// Members in document order.
    Object(Vec<(String, JsonValue)>),
}

/// The mathematical model of a JSON document.
pub enum Json {
    Null,
    Bool(bool),
    Number(Seq<char>),
    Str(Seq<char>),
    Array(Seq<Json>),
    Object(Seq<(Seq<char>, Json)>),
}

impl JsonValue {
    pub open spec fn model(&self) -> Json
        decreases self,
    {
        match self {
            JsonValue::Null => Json::Null,
            JsonValue::Bool(b) => Json::Bool(*b),
            JsonValue::Number(n) => Json::Number(n@),
            JsonValue::String(s) => Json::Str(s@),
            JsonValue::Array(v) => Json::Array(
                Seq::new(v@.len(), |i: int| if 0 <= i < v@.len() { v@[i].model() } else { Json::Null }),
            ),
            JsonValue::Object(m) => Json::Object(
                Seq::new(
                    m@.len(),
                    |i: int|
                        if 0 <= i < m@.len() {
                            (m@[i].0@, m@[i].1.model())
                        } else {
                            (Seq::empty(), Json::Null)
                        },
                ),
            ),
        }
    }
}

/// The models of a sequence of documents.
pub open spec fn models(v: Seq<JsonValue>) -> Seq<Json> {
    Seq::new(v.len(), |i: int| v[i].model())
}

/// The models of a sequence of object members.
pub open spec fn member_models(m: Seq<(String, JsonValue)>) -> Seq<(Seq<char>, Json)> {
    Seq::new(m.len(), |i: int| (m[i].0@, m[i].1.model()))
}

/// The elements of an array.
pub open spec fn jarr(j: Json) -> Option<Seq<Json>> {
    match j {
        Json::Array(a) => Some(a),
        _ => None,
    }
}

/// The text of a string.
pub open spec fn jstr(j: Json) -> Option<Seq<char>> {
    match j {
        Json::Str(s) => Some(s),
        _ => None,
    }
}

/// `value.get(i)` for an index: the element at `i` of an array.
pub open spec fn jat(j: Json, i: int) -> Option<Json> {
    match j {
        Json::Array(a) => if 0 <= i < a.len() { Some(a[i]) } else { None },
        _ => None,
    }
}

/// The value of the first member named `k`.
pub open spec fn member_lookup(m: Seq<(Seq<char>, Json)>, k: Seq<char>) -> Option<Json>
    decreases m.len(),
{
    if m.len() == 0 {
        None
    } else if m[0].0 == k {
        Some(m[0].1)
    } else {
        member_lookup(m.drop_first(), k)
    }
}

/// `value.get(k)` for a key: the member named `k` of an object.
pub open spec fn jfield(j: Json, k: Seq<char>) -> Option<Json> {
    match j {
        Json::Object(m) => member_lookup(m, k),
        _ => None,
    }
}

/// A string's text, after an optional lookup.
pub open spec fn opt_str(j: Option<Json>) -> Option<Seq<char>> {
    match j {
        Some(v) => jstr(v),
        None => None,
    }
}

/// An element, after an optional lookup.
pub open spec fn opt_at(j: Option<Json>, i: int) -> Option<Json> {
    match j {
        Some(v) => jat(v, i),
        None => None,
    }
}

pub open spec fn opt_model(r: Option<&JsonValue>) -> Option<Json> {
    match r {
        Some(v) => Some(v.model()),
        None => None,
    }
}

pub open spec fn opt_view(r: Option<String>) -> Option<Seq<char>> {
    match r {
        Some(s) => Some(s@),
        None => None,
    }
}

/// The model of an array is the sequence of its elements' models.
pub proof fn lemma_array_model(v: Vec<JsonValue>)
    ensures
        JsonValue::Array(v).model() == Json::Array(models(v@)),
{
    match JsonValue::Array(v).model() {
        Json::Array(s) => {
            assert(s =~= models(v@));
        },
        _ => {},
    }
}

/// The model of an object is the sequence of its members' models.
pub proof fn lemma_object_model(m: Vec<(String, JsonValue)>)
    ensures
        JsonValue::Object(m).model() == Json::Object(member_models(m@)),
{
    match JsonValue::Object(m).model() {
        Json::Object(s) => {
            assert(s =~= member_models(m@));
        },
        _ => {},
    }
}

impl JsonValue {
    /// `Value::as_str`.
    pub fn as_str(&self) -> (r: Option<&String>)
        ensures
            match r {
                Some(s) => jstr(self.model()) == Some(s@),
                None => jstr(self.model()) is None,
            },
    {
        match self {
            JsonValue::String(s) => Some(s),
            _ => None,
        }
    }

    /// `Value::as_array`.
    pub fn as_array(&self) -> (r: Option<&Vec<JsonValue>>)
        ensures
            match r {
                Some(v) => jarr(self.model()) == Some(models(v@)),
                None => jarr(self.model()) is None,
            },
    {
        match self {
            JsonValue::Array(v) => {
                proof {
                    lemma_array_model(*v);
                }
                Some(v)
            },
            _ => None,
        }
    }

    /// Whether the document is an array.
    pub fn is_array(&self) -> (r: bool)
        ensures
            r == (jarr(self.model()) is Some),
    {
        match self {
            JsonValue::Array(_) => true,
            _ => false,
        }
    }

    /// `Value::get` with an index.
    pub fn get_index(&self, i: usize) -> (r: Option<&JsonValue>)
        ensures
            opt_model(r) == jat(self.model(), i as int),
    {
        match self {
            JsonValue::Array(v) => {
                if i < v.len() {
                    Some(&v[i])
                } else {
                    None
                }
            },
            _ => None,
        }
    }

    /// `Value::get` with a key.
    #[verifier::loop_isolation(false)]
    pub fn get_key(&self, k: &str) -> (r: Option<&JsonValue>)
        ensures
            opt_model(r) == jfield(self.model(), k@),
    {
        match self {
            JsonValue::Object(m) => {
                proof {
                    lemma_object_model(*m);
                }
                let ks = owned(k);
                let mut i: usize = 0;
                assert(member_models(m@).skip(0) =~= member_models(m@));
                while i < m.len()
                    invariant
                        i <= m@.len(),
                        ks@ == k@,
                        member_lookup(member_models(m@), k@) == member_lookup(member_models(m@).skip(i as int), k@),
                    decreases m@.len() - i,
                {
                    assert(member_models(m@).skip(i as int).drop_first() =~= member_models(m@).skip(i + 1));
                    if m[i].0 == ks {
                        assert(member_models(m@).skip(i as int)[0] == (m@[i as int].0@, m@[i as int].1.model()));
                        return Some(&m[i].1);
                    }
                    i = i + 1;
                }
                None
            },
            _ => None,
        }
    }

    /// A copy with the same model.
    #[verifier::loop_isolation(false)]
    pub fn duplicate(&self) -> (r: JsonValue)
        ensures
            r.model() == self.model(),
        decreases self,
    {
        match self {
            JsonValue::Null => JsonValue::Null,
            JsonValue::Bool(b) => JsonValue::Bool(*b),
            JsonValue::Number(n) => JsonValue::Number(owned(n.as_str())),
            JsonValue::String(s) => JsonValue::String(owned(s.as_str())),
            JsonValue::Array(v) => {
                let mut out: Vec<JsonValue> = Vec::new();
                let mut i: usize = 0;
                while i < v.len()
                    invariant
                        i <= v@.len(),
                        out@.len() == i,
                        forall|j: int| 0 <= j < i ==> #[trigger] out@[j].model() == v@[j].model(),
                    decreases v@.len() - i,
                {
                    let e = v[i].duplicate();
                    out.push(e);
                    i = i + 1;
                }
                proof {
                    lemma_array_model(*v);
                    lemma_array_model(out);
                    assert(models(out@) =~= models(v@));
                }
                JsonValue::Array(out)
            },
            JsonValue::Object(m) => {
                let mut out: Vec<(String, JsonValue)> = Vec::new();
                let mut i: usize = 0;
                while i < m.len()
                    invariant
                        i <= m@.len(),
                        out@.len() == i,
                        forall|j: int| 0 <= j < i ==> #[trigger] out@[j].0@ == m@[j].0@ && out@[j].1.model() == m@[j].1.model(),
                    decreases m@.len() - i,
                {
                    let k = owned(m[i].0.as_str());
                    let e = m[i].1.duplicate();
                    out.push((k, e));
                    i = i + 1;
                }
                proof {
                    lemma_object_model(*m);
                    lemma_object_model(out);
                    assert(member_models(out@) =~= member_models(m@));
                }
                JsonValue::Object(out)
            },
        }
    }
}

/// A JSON string holding `s`.
pub fn jstring(s: &str) -> (r: JsonValue)
    ensures
        r.model() == Json::Str(s@),
{
    JsonValue::String(owned(s))
}


/// A JSON object with the given members.
pub fn jobject(m: Vec<(String, JsonValue)>) -> (r: JsonValue)
    ensures
        r.model() == Json::Object(member_models(m@)),
{
    proof {
        lemma_object_model(m);
    }
    JsonValue::Object(m)
}

/// Appends the member `k: v`.
pub fn push_member(m: &mut Vec<(String, JsonValue)>, k: &str, v: JsonValue)
    ensures
        member_models(final(m)@) == member_models(old(m)@).push((k@, v.model())),
{
    let ghost vm = v.model();
    m.push((owned(k), v));
    assert(member_models(m@) =~= member_models(old(m)@).push((k@, vm)));
}

/// The member `k: "v"` when there is a `v`.
pub open spec fn opt_member(k: Seq<char>, v: Option<Seq<char>>) -> Seq<(Seq<char>, Json)> {
    match v {
        Some(t) => seq![(k, Json::Str(t))],
        None => seq![],
    }
}

pub open spec fn opt_str_view(v: Option<&str>) -> Option<Seq<char>> {
    match v {
        Some(s) => Some(s@),
        None => None,
    }
}

/// Appends the member `k: "v"` when there is a `v`.
pub fn push_opt_member(m: &mut Vec<(String, JsonValue)>, k: &str, v: Option<&str>)
    ensures
        member_models(final(m)@) == member_models(old(m)@) + opt_member(k@, opt_str_view(v)),
{
    match v {
        Some(t) => {
            push_member(m, k, jstring(t));
            assert(member_models(old(m)@).push((k@, Json::Str(t@))) =~= member_models(old(m)@) + opt_member(k@, opt_str_view(v)));
        },
        None => {
            assert(member_models(old(m)@) + opt_member(k@, opt_str_view(v)) =~= member_models(old(m)@));
        },
    }
}

/// The document `null` or a string.
pub open spec fn opt_json_str(v: Option<Seq<char>>) -> Json {
    match v {
        Some(t) => Json::Str(t),
        None => Json::Null,
    }
}

} // verus!
