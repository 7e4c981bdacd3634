//! The JSON values that the services read from requests and write as replies.
//!
//! A number is kept as an `Int` (fits `i64`), a `Uint` (fits `u64` only) or,
//! for every other number, as the `Decimal` text that JSON writes for it, so
//! that a number passes through unchanged without being computed on.
use vstd::prelude::*;
use crate::text::same_text;

verus! {

/// The mathematical view of a JSON value.
#[verifier::ext_equal]
pub enum JsonV {
    Null,
    Bool(bool),
    Int(int),
    Decimal(Seq<char>),
    Str(Seq<char>),
    Array(Seq<JsonV>),
    Object(Seq<(Seq<char>, JsonV)>),
}

/// A JSON value.
#[derive(Debug, PartialEq)]
pub enum Json {
    Null,
    Bool(bool),
    Int(i64),
    Uint(u64),
    Decimal(String),
    Str(String),
    Array(Vec<Json>),
    Object(Vec<(String, Json)>),
}

/// The views of a sequence of values.
pub open spec fn items_deep(items: Seq<Json>) -> Seq<JsonV> {
    Seq::new(items.len(), |i: int| items[i].deep())
}

/// The views of a sequence of object fields.
pub open spec fn fields_deep(fields: Seq<(String, Json)>) -> Seq<(Seq<char>, JsonV)> {
    Seq::new(fields.len(), |i: int| (fields[i].0@, fields[i].1.deep()))
}

/// The value of the first field named `key` in `fields`.
pub open spec fn first_field(fields: Seq<(Seq<char>, JsonV)>, key: Seq<char>) -> Option<JsonV>
    decreases fields.len(),
{
    if fields.len() == 0 {
        None
    } else if fields[0].0 == key {
        Some(fields[0].1)
    } else {
        first_field(fields.drop_first(), key)
    }
}

/// The value under `key` when `j` is an object that has such a field.
pub open spec fn field_of(j: JsonV, key: Seq<char>) -> Option<JsonV> {
    match j {
        JsonV::Object(fields) => first_field(fields, key),
        _ => None,
    }
}

/// The value under `key`, or `null` where there is none.
pub open spec fn field_or_null(j: JsonV, key: Seq<char>) -> JsonV {
    match field_of(j, key) {
        Some(v) => v,
        None => JsonV::Null,
    }
}

/// The text of `j` when `j` is a string.
pub open spec fn str_of(j: Option<JsonV>) -> Option<Seq<char>> {
    match j {
        Some(JsonV::Str(s)) => Some(s),
        _ => None,
    }
}

/// The text of `j` when `j` is a string, else the empty text.
pub open spec fn str_or_empty(j: Option<JsonV>) -> Seq<char> {
    match str_of(j) {
        Some(s) => s,
        None => Seq::empty(),
    }
}

/// The flag of `j` when `j` is a boolean.
pub open spec fn bool_of(j: Option<JsonV>) -> Option<bool> {
    match j {
        Some(JsonV::Bool(b)) => Some(b),
        _ => None,
    }
}

proof fn lemma_first_field_skip(fields: Seq<(Seq<char>, JsonV)>, i: int, key: Seq<char>)
    requires
        0 <= i < fields.len(),
        fields[i].0 != key,
    ensures
        first_field(fields.subrange(i, fields.len() as int), key) == first_field(
            fields.subrange(i + 1, fields.len() as int),
            key,
        ),
{
    assert(fields.subrange(i, fields.len() as int).drop_first() =~= fields.subrange(
        i + 1,
        fields.len() as int,
    ));
}

impl Json {
    /// The view of this value.
    pub open spec fn deep(&self) -> JsonV
        decreases self,
    {
        match self {
            Json::Null => JsonV::Null,
            Json::Bool(b) => JsonV::Bool(*b),
            Json::Int(i) => JsonV::Int(*i as int),
            Json::Uint(u) => JsonV::Int(*u as int),
            Json::Decimal(s) => JsonV::Decimal(s@),
            Json::Str(s) => JsonV::Str(s@),
            Json::Array(items) => JsonV::Array(
                Seq::new(
                    items@.len(),
                    |i: int|
                        if 0 <= i < items@.len() {
                            items@[i].deep()
                        } else {
                            JsonV::Null
                        },
                ),
            ),
            Json::Object(fields) => JsonV::Object(
                Seq::new(
                    fields@.len(),
                    |i: int|
                        if 0 <= i < fields@.len() {
                            (fields@[i].0@, fields@[i].1.deep())
                        } else {
                            (Seq::empty(), JsonV::Null)
                        },
                ),
            ),
        }
    }

    /// A string value with the text of `s`.
    pub fn text(s: &str) -> (r: Json)
        ensures
            r.deep() == JsonV::Str(s@),
    {
        Json::Str(String::from_str(s))
    }

    /// An array value holding `items` in order.
    pub fn array(items: Vec<Json>) -> (r: Json)
        ensures
            r.deep() == JsonV::Array(items_deep(items@)),
    {
        let r = Json::Array(items);
        assert(r.deep()->Array_0 =~= items_deep(items@));
        r
    }

    /// An object value holding `fields` in order.
    pub fn object(fields: Vec<(String, Json)>) -> (r: Json)
        ensures
            r.deep() == JsonV::Object(fields_deep(fields@)),
    {
        let r = Json::Object(fields);
        assert(r.deep()->Object_0 =~= fields_deep(fields@));
        r
    }

    /// A copy of this value with the same view.
    pub fn duplicate(&self) -> (r: Json)
        ensures
            r.deep() == self.deep(),
        decreases self,
    {
        match self {
            Json::Null => Json::Null,
            Json::Bool(b) => Json::Bool(*b),
            Json::Int(i) => Json::Int(*i),
            Json::Uint(u) => Json::Uint(*u),
            Json::Decimal(s) => Json::Decimal(s.clone()),
            Json::Str(s) => Json::Str(s.clone()),
            Json::Array(items) => {
                let mut out: Vec<Json> = Vec::new();
                let mut i: usize = 0;
                while i < items.len()
                    invariant
                        i <= items@.len(),
                        out@.len() == i,
                        forall|j: int| 0 <= j < i ==> (#[trigger] out@[j]).deep() == items@[j].deep(),
                        *self == Json::Array(*items),
                    decreases items@.len() - i,
                {
                    proof {
                        vstd::std_specs::vec::axiom_vec_index_decreases(*items, i as int);
                        assert(decreases_to!(*self => (*self)->Array_0));
                    }
                    let c = items[i].duplicate();
                    out.push(c);
                    i = i + 1;
                }
                let r = Json::Array(out);
                assert(r.deep()->Array_0 =~= self.deep()->Array_0);
                r
            },
            Json::Object(fields) => {
                let mut out: Vec<(String, Json)> = Vec::new();
                let mut i: usize = 0;
                while i < fields.len()
                    invariant
                        i <= fields@.len(),
                        out@.len() == i,
                        forall|j: int|
                            0 <= j < i ==> (#[trigger] out@[j]).0@ == fields@[j].0@ && out@[j].1.deep()
                                == fields@[j].1.deep(),
                        *self == Json::Object(*fields),
                    decreases fields@.len() - i,
                {
                    proof {
                        vstd::std_specs::vec::axiom_vec_index_decreases(*fields, i as int);
                        assert(decreases_to!(*self => (*self)->Object_0));
                        assert(decreases_to!(fields[i as int] => fields[i as int].1));
                    }
                    let v = fields[i].1.duplicate();
                    let k = fields[i].0.clone();
                    out.push((k, v));
                    i = i + 1;
                }
                let r = Json::Object(out);
                assert(r.deep()->Object_0 =~= self.deep()->Object_0);
                r
            },
        }
    }

    /// The value of the first field named `key`, where this value is an
    /// object that has one.
    pub fn get(&self, key: &str) -> (r: Option<&Json>)
        ensures
            match r {
                Some(v) => field_of(self.deep(), key@) == Some(v.deep()),
                None => field_of(self.deep(), key@) is None,
            },
    {
        match self {
            Json::Object(fields) => {
                let ghost fs = self.deep()->Object_0;
                let mut i: usize = 0;
                assert(fs.subrange(0, fs.len() as int) =~= fs);
                while i < fields.len()
                    invariant
                        i <= fields@.len(),
                        fs.len() == fields@.len(),
                        forall|j: int|
                            0 <= j < fields@.len() ==> (#[trigger] fs[j]) == (
                                fields@[j].0@,
                                fields@[j].1.deep(),
                            ),
                        first_field(fs, key@) == first_field(fs.subrange(i as int, fs.len() as int), key@),
                        self.deep() == JsonV::Object(fs),
                    decreases fields@.len() - i,
                {
                    if same_text(fields[i].0.as_str(), key) {
                        let ghost rest = fs.subrange(i as int, fs.len() as int);
                        assert(rest[0] == fs[i as int]);
                        assert(fs[i as int].0 == key@);
                        assert(first_field(rest, key@) == Some(fs[i as int].1));
                        return Some(&fields[i].1);
                    }
                    proof {
                        lemma_first_field_skip(fs, i as int, key@);
                    }
                    i = i + 1;
                }
                None
            },
            _ => None,
        }
    }

    /// The text of this value, where it is a string.
    pub fn as_str(&self) -> (r: Option<&str>)
        ensures
            match r {
                Some(s) => self.deep() == JsonV::Str(s@),
                None => !(self.deep() is Str),
            },
    {
        match self {
            Json::Str(s) => Some(s.as_str()),
            _ => None,
        }
    }

    /// The flag of this value, where it is a boolean.
    pub fn as_bool(&self) -> (r: Option<bool>)
        ensures
            r == bool_of(Some(self.deep())),
    {
        match self {
            Json::Bool(b) => Some(*b),
            _ => None,
        }
    }

    /// The value under `key`, or `null` where there is none.
    pub fn field_or_null(&self, key: &str) -> (r: Json)
        ensures
            r.deep() == field_or_null(self.deep(), key@),
    {
        match self.get(key) {
            Some(v) => v.duplicate(),
            None => Json::Null,
        }
    }

    /// The text under `key` where it is a string, else the empty text.
    pub fn str_field_or_empty(&self, key: &str) -> (r: &str)
        ensures
            r@ == str_or_empty(field_of(self.deep(), key@)),
    {
        proof {
            reveal_strlit("");
        }
        match self.get(key) {
            Some(v) => match v.as_str() {
                Some(s) => s,
                None => "",
            },
            None => "",
        }
    }
}

/// A field of an object: `key` with `value`.
pub fn field(key: &str, value: Json) -> (r: (String, Json))
    ensures
        r.0@ == key@,
        r.1 == value,
{
    (String::from_str(key), value)
}

} // verus!
