use vstd::prelude::*;
use crate::text::same_text;

verus! {

broadcast use vstd::std_specs::vec::axiom_vec_index_decreases;

/// A JSON document held as plain values. Numbers that are not integers keep
/// their decimal text, so that nothing is lost on the way in and out.
#[derive(Debug, PartialEq)]
pub enum JsonValue {
    Null,
    Bool(bool),
    UInt(u64),
    NegInt(i64),
    Decimal(String),
    Str(String),
    Array(Vec<JsonValue>),
    Object(Vec<(String, JsonValue)>),
}

/// The mathematical model of a JSON document.
pub ghost enum Json {
    Null,
    Bool(bool),
    UInt(u64),
    NegInt(i64),
    Decimal(Seq<char>),
    Str(Seq<char>),
    Array(Seq<Json>),
    Object(Seq<(Seq<char>, Json)>),
}

/// The first field named `key` among `fields`.
pub open spec fn field_in(fields: Seq<(Seq<char>, Json)>, key: Seq<char>) -> Option<Json>
    decreases fields.len(),
{
    if fields.len() == 0 {
        None
    } else if fields[0].0 == key {
        Some(fields[0].1)
    } else {
        field_in(fields.drop_first(), key)
    }
}

impl Json {
    /// The field `key` of an object; nothing for any other value.
    pub open spec fn get(self, key: Seq<char>) -> Option<Json> {
        match self {
            Json::Object(fields) => field_in(fields, key),
            _ => None,
        }
    }

    /// A boolean field read the lenient way: `false` when absent or not a boolean.
    pub open spec fn flag(self, key: Seq<char>) -> bool {
        match self.get(key) {
            Some(Json::Bool(b)) => b,
            _ => false,
        }
    }
}

impl JsonValue {
    pub open spec fn view_json(&self) -> Json
        decreases self,
    {
        match self {
            JsonValue::Null => Json::Null,
            JsonValue::Bool(b) => Json::Bool(*b),
            JsonValue::UInt(n) => Json::UInt(*n),
            JsonValue::NegInt(n) => Json::NegInt(*n),
            JsonValue::Decimal(s) => Json::Decimal(s@),
            JsonValue::Str(s) => Json::Str(s@),
            JsonValue::Array(items) => Json::Array(
                Seq::new(
                    items.len() as nat,
                    |i: int|
                        if 0 <= i < items.len() {
                            items[i].view_json()
                        } else {
                            Json::Null
                        },
                ),
            ),
            JsonValue::Object(fields) => Json::Object(
                Seq::new(
                    fields.len() as nat,
                    |i: int|
                        if 0 <= i < fields.len() {
                            (fields[i].0@, fields[i].1.view_json())
                        } else {
                            (Seq::empty(), Json::Null)
                        },
                ),
            ),
        }
    }

    /// A copy with the same model.
    pub fn clone_value(&self) -> (r: JsonValue)
        ensures
            r.view_json() == self.view_json(),
        decreases self,
    {
        match self {
            JsonValue::Null => JsonValue::Null,
            JsonValue::Bool(b) => JsonValue::Bool(*b),
            JsonValue::UInt(n) => JsonValue::UInt(*n),
            JsonValue::NegInt(n) => JsonValue::NegInt(*n),
            JsonValue::Decimal(s) => JsonValue::Decimal(s.clone()),
            JsonValue::Str(s) => JsonValue::Str(s.clone()),
            JsonValue::Array(items) => {
                let mut out: Vec<JsonValue> = Vec::new();
                let mut i: usize = 0;
                while i < items.len()
                    invariant
                        *self == JsonValue::Array(*items),
                        decreases_to!(*self => *items),
                        0 <= i <= items.len(),
                        out.len() == i,
                        forall|j: int| 0 <= j < i ==> out[j].view_json() == items[j].view_json(),
                    decreases items.len() - i,
                {
                    proof { assert(decreases_to!(*items => items[i as int])); }
                    out.push(items[i].clone_value());
                    i = i + 1;
                }
                let r = JsonValue::Array(out);
                assert(r.view_json()->Array_0 =~= self.view_json()->Array_0);
                r
            },
            JsonValue::Object(fields) => {
                let mut out: Vec<(String, JsonValue)> = Vec::new();
                let mut i: usize = 0;
                while i < fields.len()
                    invariant
                        *self == JsonValue::Object(*fields),
                        decreases_to!(*self => *fields),
                        0 <= i <= fields.len(),
                        out.len() == i,
                        forall|j: int| 0 <= j < i ==> out[j].0@ == fields[j].0@ && out[j].1.view_json() == fields[j].1.view_json(),
                    decreases fields.len() - i,
                {
                    proof { assert(decreases_to!(*fields => fields[i as int])); }
                    out.push((fields[i].0.clone(), fields[i].1.clone_value()));
                    i = i + 1;
                }
                let r = JsonValue::Object(out);
                assert(r.view_json()->Object_0 =~= self.view_json()->Object_0);
                r
            },
        }
    }

    /// The field `key` of an object (its first occurrence); nothing for any other value.
    pub fn get(&self, key: &str) -> (r: Option<&JsonValue>)
        ensures
            r matches Some(v) ==> self.view_json().get(key@) == Some(v.view_json()),
            r is None ==> self.view_json().get(key@) is None,
    {
        match self {
            JsonValue::Object(fields) => {
                let ghost model = self.view_json()->Object_0;
                let mut i: usize = 0;
                assert(model.subrange(0, model.len() as int) =~= model);
                while i < fields.len()
                    invariant
                        0 <= i <= fields.len(),
                        self.view_json() == Json::Object(model),
                        model.len() == fields.len(),
                        forall|j: int| 0 <= j < fields.len() ==> #[trigger] model[j] == (fields[j].0@, fields[j].1.view_json()),
                        field_in(model, key@) == field_in(model.subrange(i as int, model.len() as int), key@),
                    decreases fields.len() - i,
                {
                    let ghost rest = model.subrange(i as int, model.len() as int);
                    assert(rest.drop_first() =~= model.subrange(i + 1, model.len() as int));
                    if same_text(fields[i].0.as_str(), key) {
                        return Some(&fields[i].1);
                    }
                    i = i + 1;
                }
                None
            },
            _ => None,
        }
    }

    /// A boolean field read leniently: `false` when it is absent or not a boolean.
    pub fn flag(&self, key: &str) -> (r: bool)
        ensures
            r == self.view_json().flag(key@),
    {
        match self.get(key) {
            Some(JsonValue::Bool(b)) => *b,
            _ => false,
        }
    }

    /// A text field; nothing when it is absent or not a string.
    pub fn text_field(&self, key: &str) -> (r: Option<&String>)
        ensures
            r matches Some(s) ==> self.view_json().get(key@) == Some(Json::Str(s@)),
            r is None ==> !(self.view_json().get(key@) matches Some(Json::Str(_))),
    {
        match self.get(key) {
            Some(JsonValue::Str(s)) => Some(s),
            _ => None,
        }
    }

    /// An unsigned integer field; nothing when it is absent or not one.
    pub fn u64_field(&self, key: &str) -> (r: Option<u64>)
        ensures
            r matches Some(n) ==> self.view_json().get(key@) == Some(Json::UInt(n)),
            r is None ==> !(self.view_json().get(key@) matches Some(Json::UInt(_))),
    {
        match self.get(key) {
            Some(JsonValue::UInt(n)) => Some(*n),
            _ => None,
        }
    }

    /// An object with the fields `k1` and `k2`, in that order.
    pub fn object2(k1: &str, v1: JsonValue, k2: &str, v2: JsonValue) -> (r: JsonValue)
        ensures
            r.view_json() == Json::Object(seq![(k1@, v1.view_json()), (k2@, v2.view_json())]),
    {
        let ghost m = seq![(k1@, v1.view_json()), (k2@, v2.view_json())];
        let fields = vec![(k1.to_owned(), v1), (k2.to_owned(), v2)];
        proof { lemma_object_fields(fields); }
        assert(fields@[0].0@ == m[0].0 && fields@[0].1.view_json() == m[0].1);
        assert(fields@[1].0@ == m[1].0 && fields@[1].1.view_json() == m[1].1);
        let r = JsonValue::Object(fields);
        assert(r.view_json()->Object_0 =~= m);
        r
    }

    /// An object with the fields `k1`, `k2` and `k3`, in that order.
    pub fn object3(k1: &str, v1: JsonValue, k2: &str, v2: JsonValue, k3: &str, v3: JsonValue) -> (r: JsonValue)
        ensures
            r.view_json() == Json::Object(seq![(k1@, v1.view_json()), (k2@, v2.view_json()), (k3@, v3.view_json())]),
    {
        let ghost m = seq![(k1@, v1.view_json()), (k2@, v2.view_json()), (k3@, v3.view_json())];
        let fields = vec![(k1.to_owned(), v1), (k2.to_owned(), v2), (k3.to_owned(), v3)];
        proof { lemma_object_fields(fields); }
        assert(fields@[0].0@ == m[0].0 && fields@[0].1.view_json() == m[0].1);
        assert(fields@[1].0@ == m[1].0 && fields@[1].1.view_json() == m[1].1);
        assert(fields@[2].0@ == m[2].0 && fields@[2].1.view_json() == m[2].1);
        let r = JsonValue::Object(fields);
        assert(r.view_json()->Object_0 =~= m);
        r
    }

    /// A JSON string holding a copy of `s`.
    pub fn text(s: &str) -> (r: JsonValue)
        ensures
            r.view_json() == Json::Str(s@),
    {
        JsonValue::Str(s.to_owned())
    }
}

/// The model of an object lists the models of its fields, in order.
pub proof fn lemma_object_fields(v: Vec<(String, JsonValue)>)
    ensures
        JsonValue::Object(v).view_json()->Object_0.len() == v.len(),
        forall|i: int| 0 <= i < v.len() ==> #[trigger] JsonValue::Object(v).view_json()->Object_0[i] == (v[i].0@, v[i].1.view_json()),
{
}

/// The model of an array lists the models of its items, in order.
pub proof fn lemma_array_items(v: Vec<JsonValue>)
    ensures
        JsonValue::Array(v).view_json()->Array_0.len() == v.len(),
        forall|i: int| 0 <= i < v.len() ==> #[trigger] JsonValue::Array(v).view_json()->Array_0[i] == v[i].view_json(),
{
}

} // verus!
