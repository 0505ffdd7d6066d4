//! JSON values as plain data, their mathematical view, and the readers that
//! the rest of the library uses on them. Parsing and printing are done by
//! `serde_json`.

use vstd::prelude::*;
use crate::assoc;
use crate::text;

verus! {

/// A JSON value. A number is held as the text that prints it.
#[derive(Debug)]
pub enum Json {
    Null,
    Bool(bool),
    Number(String),
    Str(String),
    Array(Vec<Json>),
    Object(Vec<(String, Json)>),
}

/// The mathematical value of a [`Json`].
pub ghost enum JsonV {
    Null,
    Bool(bool),
    Number(Seq<char>),
    Str(Seq<char>),
    Array(Seq<JsonV>),
    Object(Seq<(Seq<char>, JsonV)>),
}

impl View for Json {
    type V = JsonV;

    open spec fn view(&self) -> JsonV
        decreases self,
    {
        match self {
            Json::Null => JsonV::Null,
            Json::Bool(b) => JsonV::Bool(*b),
            Json::Number(t) => JsonV::Number(t@),
            Json::Str(t) => JsonV::Str(t@),
            Json::Array(items) => JsonV::Array(
                Seq::new(
                    items@.len(),
                    |i: int|
                        if 0 <= i < items@.len() {
                            items@[i].view()
                        } else {
                            JsonV::Null
                        },
                ),
            ),
            Json::Object(entries) => JsonV::Object(
                Seq::new(
                    entries@.len(),
                    |i: int|
                        (
                            entries@[i].0@,
                            if 0 <= i < entries@.len() {
                                entries@[i].1.view()
                            } else {
                                JsonV::Null
                            },
                        ),
                ),
            ),
        }
    }
}

/// The values of `s`.
pub open spec fn items_view(s: Seq<Json>) -> Seq<JsonV> {
    Seq::new(s.len(), |i: int| s[i]@)
}

/// An array's view holds the views of its items; an object's, those of its entries.
pub proof fn lemma_view(j: Json)
    ensures
        j matches Json::Array(items) ==> j@ == JsonV::Array(items_view(items@)),
        j matches Json::Object(entries) ==> j@ == JsonV::Object(assoc::entries_view(entries@)),
{
    match j {
        Json::Array(items) => {
            let v = j.view();
            assert(v->Array_0 =~= items_view(items@));
        },
        Json::Object(entries) => {
            let v = j.view();
            assert(v is Object);
            let a = v->Object_0;
            let b = assoc::entries_view(entries@);
            assert(a.len() == b.len());
            assert forall|i: int| 0 <= i < a.len() implies a[i] == b[i] by {
                assert(a[i].0 == entries@[i].0@);
                assert(a[i].1 == entries@[i].1@);
                assert(b[i].0 == entries@[i].0@);
                assert(b[i].1 == entries@[i].1@);
            }
            assert(a =~= b);
        },
        _ => {},
    }
}

impl JsonV {
    /// The member under `key`, where this is an object that has one.
    pub open spec fn get(self, key: Seq<char>) -> Option<JsonV> {
        match self {
            JsonV::Object(entries) => assoc::lookup(entries, key),
            _ => None,
        }
    }

    /// The text, where this is a string.
    pub open spec fn as_str(self) -> Option<Seq<char>> {
        match self {
            JsonV::Str(t) => Some(t),
            _ => None,
        }
    }

    /// The truth value, where this is one.
    pub open spec fn as_bool(self) -> Option<bool> {
        match self {
            JsonV::Bool(b) => Some(b),
            _ => None,
        }
    }

    /// The items, where this is an array.
    pub open spec fn as_array(self) -> Option<Seq<JsonV>> {
        match self {
            JsonV::Array(items) => Some(items),
            _ => None,
        }
    }

    /// The entries, where this is an object.
    pub open spec fn as_object(self) -> Option<Seq<(Seq<char>, JsonV)>> {
        match self {
            JsonV::Object(entries) => Some(entries),
            _ => None,
        }
    }

    /// The number, where this is a non-negative whole number that fits in 64 bits.
    pub open spec fn as_u64(self) -> Option<u64> {
        match self {
            JsonV::Number(t) => text::decimal_u64(t),
            _ => None,
        }
    }

    /// The number, where this is a whole number that fits in 64 bits with a sign.
    pub open spec fn as_i64(self) -> Option<i64> {
        match self {
            JsonV::Number(t) => text::decimal_i64(t),
            _ => None,
        }
    }

    /// The text of the string member under `key`.
    pub open spec fn str_at(self, key: Seq<char>) -> Option<Seq<char>> {
        match self.get(key) {
            Some(v) => v.as_str(),
            None => None,
        }
    }
}

impl Json {
    /// The member under `key`, where this is an object that has one.
    pub fn get(&self, key: &str) -> (r: Option<&Json>)
        ensures
            match r {
                Some(v) => self@.get(key@) == Some(v@),
                None => self@.get(key@) is None,
            },
    {
        proof {
            lemma_view(*self);
        }
        match self {
            Json::Object(entries) => assoc::get(entries, key),
            _ => None,
        }
    }

    /// The text, where this is a string.
    pub fn as_str(&self) -> (r: Option<&str>)
        ensures
            match r {
                Some(t) => self@.as_str() == Some(t@),
                None => self@.as_str() is None,
            },
    {
        match self {
            Json::Str(t) => Some(t.as_str()),
            _ => None,
        }
    }

    /// The truth value, where this is one.
    pub fn as_bool(&self) -> (r: Option<bool>)
        ensures
            r == self@.as_bool(),
    {
        match self {
            Json::Bool(b) => Some(*b),
            _ => None,
        }
    }

    /// The items, where this is an array.
    pub fn as_array(&self) -> (r: Option<&Vec<Json>>)
        ensures
            match r {
                Some(items) => self@.as_array() == Some(items_view(items@)),
                None => self@.as_array() is None,
            },
    {
        proof {
            lemma_view(*self);
        }
        match self {
            Json::Array(items) => Some(items),
            _ => None,
        }
    }

    /// The entries, where this is an object.
    pub fn as_object(&self) -> (r: Option<&Vec<(String, Json)>>)
        ensures
            match r {
                Some(entries) => self@.as_object() == Some(assoc::entries_view(entries@)),
                None => self@.as_object() is None,
            },
    {
        proof {
            lemma_view(*self);
        }
        match self {
            Json::Object(entries) => Some(entries),
            _ => None,
        }
    }

    /// The number, where this is a non-negative whole number that fits in 64 bits.
    pub fn as_u64(&self) -> (r: Option<u64>)
        ensures
            r == self@.as_u64(),
    {
        match self {
            Json::Number(t) => {
                let v = text::chars_of(t.as_str());
                text::parse_u64(&v)
            },
            _ => None,
        }
    }

    /// The number, where this is a whole number that fits in 64 bits with a sign.
    pub fn as_i64(&self) -> (r: Option<i64>)
        ensures
            r == self@.as_i64(),
    {
        match self {
            Json::Number(t) => {
                let v = text::chars_of(t.as_str());
                text::parse_i64(&v)
            },
            _ => None,
        }
    }

    /// The number value `n`.
    pub fn from_i64(n: i64) -> (r: Json)
        ensures
            r@ == JsonV::Number(text::int_text(n as int)),
    {
        Json::Number(text::i64_to_string(n))
    }

    /// The text of the string member under `key`.
    pub fn str_at(&self, key: &str) -> (r: Option<String>)
        ensures
            match r {
                Some(t) => self@.str_at(key@) == Some(t@),
                None => self@.str_at(key@) is None,
            },
    {
        match self.get(key) {
            Some(v) => match v.as_str() {
                Some(t) => Some(t.to_owned()),
                None => None,
            },
            None => None,
        }
    }

    /// The string value that holds `t`.
    pub fn string(t: &str) -> (r: Json)
        ensures
            r@ == JsonV::Str(t@),
    {
        Json::Str(t.to_owned())
    }

    /// The number value `n`.
    pub fn from_u64(n: u64) -> (r: Json)
        ensures
            r@ == JsonV::Number(text::decimal(n as nat)),
    {
        Json::Number(text::u64_to_string(n))
    }

    /// A copy of this value.
    pub fn deep_clone(&self) -> (r: Json)
        ensures
            r@ == self@,
        decreases self,
    {
        match self {
            Json::Null => Json::Null,
            Json::Bool(b) => Json::Bool(*b),
            Json::Number(t) => Json::Number(t.clone()),
            Json::Str(t) => Json::Str(t.clone()),
            Json::Array(items) => {
                let mut out: Vec<Json> = Vec::new();
                let mut i: usize = 0;
                while i < items.len()
                    invariant
                        i <= items.len(),
                        *self == Json::Array(*items),
                        out@.len() == i,
                        forall|k: int| 0 <= k < i ==> out@[k]@ == items@[k]@,
                    decreases items.len() - i,
                {
                    proof {
                        vstd::std_specs::vec::axiom_vec_index_decreases(*items, i as int);
                        assert(decreases_to!(*self => (*self)->Array_0));
                    }
                    let c = items[i].deep_clone();
                    out.push(c);
                    i += 1;
                }
                let r = Json::Array(out);
                proof {
                    lemma_view(r);
                    lemma_view(*self);
                    assert(items_view(out@) =~= items_view(items@));
                }
                r
            },
            Json::Object(entries) => {
                let mut out: Vec<(String, Json)> = Vec::new();
                let mut i: usize = 0;
                while i < entries.len()
                    invariant
                        i <= entries.len(),
                        *self == Json::Object(*entries),
                        out@.len() == i,
                        forall|k: int|
                            0 <= k < i ==> out@[k].0@ == entries@[k].0@ && out@[k].1@
                                == entries@[k].1@,
                    decreases entries.len() - i,
                {
                    let key = entries[i].0.clone();
                    proof {
                        vstd::std_specs::vec::axiom_vec_index_decreases(*entries, i as int);
                        assert(decreases_to!(*self => (*self)->Object_0));
                    }
                    let c = entries[i].1.deep_clone();
                    out.push((key, c));
                    i += 1;
                }
                let r = Json::Object(out);
                proof {
                    lemma_view(r);
                    lemma_view(*self);
                    assert(assoc::entries_view(out@) =~= assoc::entries_view(entries@));
                }
                r
            },
        }
    }
}

/// `serde_json::Value`, the tree that `serde_json` parses into and prints from.
#[verifier::external_type_specification]
#[verifier::external_body]
pub struct ExValue(serde_json::Value);

/// What `serde_json::from_slice` makes of `bytes`: the value, or the message of its error.
pub uninterp spec fn parsed(bytes: Seq<u8>) -> Result<JsonV, Seq<char>>;

/// The compact bytes that `serde_json::to_vec` prints for `j`, where it prints any.
pub uninterp spec fn printed(j: JsonV) -> Option<Seq<u8>>;

/// The compact text that `serde_json::to_string` prints for `j`, where it prints any.
pub uninterp spec fn printed_text(j: JsonV) -> Option<Seq<char>>;

/// Moves a `serde_json::Value` into a [`Json`], variant by variant; a number
/// becomes the text that `serde_json` displays for it. Nothing is claimed of
/// the result here: the callers below name it.
#[verifier::external_body]
fn from_value(v: serde_json::Value) -> Json {
    match v {
        serde_json::Value::Null => Json::Null,
        serde_json::Value::Bool(b) => Json::Bool(b),
        serde_json::Value::Number(n) => Json::Number(n.to_string()),
        serde_json::Value::String(t) => Json::Str(t),
        serde_json::Value::Array(a) => Json::Array(a.into_iter().map(from_value).collect()),
        serde_json::Value::Object(m) => Json::Object(
            m.into_iter().map(|(k, v)| (k, from_value(v))).collect(),
        ),
    }
}

/// Moves a [`Json`] into a `serde_json::Value`, variant by variant; a number
/// is read back from its text by `serde_json`, and is null where that fails.
#[verifier::external_body]
fn to_value(j: &Json) -> serde_json::Value {
    match j {
        Json::Null => serde_json::Value::Null,
        Json::Bool(b) => serde_json::Value::Bool(*b),
        Json::Number(t) => t.parse().map(serde_json::Value::Number).unwrap_or_default(),
        Json::Str(t) => serde_json::Value::String(t.clone()),
        Json::Array(a) => serde_json::Value::Array(a.iter().map(to_value).collect()),
        Json::Object(m) => serde_json::Value::Object(
            m.iter().map(|(k, v)| (k.clone(), to_value(v))).collect(),
        ),
    }
}

/// `serde_json::from_slice` on `bytes`, read as a `serde_json::Value`: the
/// result is the value that the parser built, or the text of its error.
#[verifier::external_body]
fn parse_bytes(bytes: &[u8]) -> (r: Result<Json, String>)
    ensures
        match r {
            Ok(j) => parsed(bytes@) == Ok::<JsonV, Seq<char>>(j@),
            Err(e) => parsed(bytes@) == Err::<JsonV, Seq<char>>(e@),
        },
{
    match serde_json::from_slice::<serde_json::Value>(bytes) {
        Ok(v) => Ok(from_value(v)),
        Err(e) => Err(e.to_string()),
    }
}

/// `serde_json::to_vec` on the value of `j`: the bytes it printed, or nothing
/// where it reported an error.
#[verifier::external_body]
fn print_bytes(j: &Json) -> (r: Option<Vec<u8>>)
    ensures
        match r {
            Some(b) => printed(j@) == Some(b@),
            None => printed(j@) is None,
        },
{
    serde_json::to_vec(&to_value(j)).ok()
}

/// `serde_json::to_string` on the value of `j`: the text it printed, or
/// nothing where it reported an error.
#[verifier::external_body]
fn print_text(j: &Json) -> (r: Option<String>)
    ensures
        match r {
            Some(t) => printed_text(j@) == Some(t@),
            None => printed_text(j@) is None,
        },
{
    serde_json::to_string(&to_value(j)).ok()
}

/// The bytes that stand for an empty object.
pub open spec fn empty_object_bytes() -> Seq<u8> {
    seq![0x7bu8, 0x7du8]
}

/// The bytes that print `j`; those of an empty object where none are printed.
pub open spec fn encoding(j: JsonV) -> Seq<u8> {
    match printed(j) {
        Some(b) => b,
        None => empty_object_bytes(),
    }
}

impl Json {
    /// Parses `bytes` as one JSON value.
    pub fn parse(bytes: &[u8]) -> (r: Result<Json, String>)
        ensures
            match r {
                Ok(j) => parsed(bytes@) == Ok::<JsonV, Seq<char>>(j@),
                Err(e) => parsed(bytes@) == Err::<JsonV, Seq<char>>(e@),
            },
    {
        parse_bytes(bytes)
    }

    /// The compact text of this value, where it can be printed.
    pub fn to_text(&self) -> (r: Option<String>)
        ensures
            match r {
                Some(t) => printed_text(self@) == Some(t@),
                None => printed_text(self@) is None,
            },
    {
        print_text(self)
    }

    /// The compact bytes of this value; those of an empty object where it cannot be printed.
    pub fn to_bytes(&self) -> (r: Vec<u8>)
        ensures
            r@ == encoding(self@),
    {
        match print_bytes(self) {
            Some(b) => b,
            None => {
                let mut b: Vec<u8> = Vec::new();
                b.push(0x7bu8);
                b.push(0x7du8);
                assert(b@ =~= empty_object_bytes());
                b
            },
        }
    }
}

/// What an optional string member under `key` holds: nothing where the
/// member is missing or null, its text where it is a string; `None` where
/// it is of another kind.
pub open spec fn opt_str_at(j: JsonV, key: Seq<char>) -> Option<Option<Seq<char>>> {
    match j.get(key) {
        None => Some(None),
        Some(JsonV::Null) => Some(None),
        Some(JsonV::Str(t)) => Some(Some(t)),
        Some(_) => None,
    }
}

/// What an optional whole-number member under `key` holds, read as `opt_str_at` reads text.
pub open spec fn opt_u64_at(j: JsonV, key: Seq<char>) -> Option<Option<u64>> {
    match j.get(key) {
        None => Some(None),
        Some(JsonV::Null) => Some(None),
        Some(v) => match v.as_u64() {
            Some(n) => Some(Some(n)),
            None => None,
        },
    }
}

/// The view of an optional string.
pub open spec fn opt_view(t: Option<String>) -> Option<Seq<char>> {
    match t {
        Some(s) => Some(s@),
        None => None,
    }
}

/// The view of a decoded optional string.
pub open spec fn opt_opt_view(t: Option<Option<String>>) -> Option<Option<Seq<char>>> {
    match t {
        Some(s) => Some(opt_view(s)),
        None => None,
    }
}

/// Reads an optional string member.
pub fn read_opt_str(j: &Json, key: &str) -> (r: Option<Option<String>>)
    ensures
        opt_opt_view(r) == opt_str_at(j@, key@),
{
    match j.get(key) {
        None => Some(None),
        Some(Json::Null) => Some(None),
        Some(Json::Str(t)) => Some(Some(t.clone())),
        Some(_) => None,
    }
}

/// Reads an optional whole-number member.
pub fn read_opt_u64(j: &Json, key: &str) -> (r: Option<Option<u64>>)
    ensures
        r == opt_u64_at(j@, key@),
{
    match j.get(key) {
        None => Some(None),
        Some(Json::Null) => Some(None),
        Some(v) => match v.as_u64() {
            Some(n) => Some(Some(n)),
            None => None,
        },
    }
}

/// Appends the member `key` with `value` to the entries of an object.
pub fn push_member(entries: &mut Vec<(String, Json)>, key: &str, value: Json)
    ensures
        assoc::entries_view(final(entries)@) == assoc::entries_view(old(entries)@).push(
            (key@, value@),
        ),
{
    entries.push((key.to_owned(), value));
    assert(assoc::entries_view(entries@) =~= assoc::entries_view(old(entries)@).push(
        (key@, value@),
    ));
}

/// The object with the given entries.
pub fn object(entries: Vec<(String, Json)>) -> (r: Json)
    ensures
        r@ == JsonV::Object(assoc::entries_view(entries@)),
{
    let r = Json::Object(entries);
    proof {
        lemma_view(r);
    }
    r
}

/// The array with the given items.
pub fn array(items: Vec<Json>) -> (r: Json)
    ensures
        r@ == JsonV::Array(items_view(items@)),
{
    let r = Json::Array(items);
    proof {
        lemma_view(r);
    }
    r
}

/// An empty list of entries.
pub fn no_members() -> (r: Vec<(String, Json)>)
    ensures
        assoc::entries_view(r@) == Seq::<(Seq<char>, JsonV)>::empty(),
{
    let r: Vec<(String, Json)> = Vec::new();
    assert(assoc::entries_view(r@) =~= Seq::<(Seq<char>, JsonV)>::empty());
    r
}

/// The object whose members are the pairs of `m`, each value a string.
pub open spec fn text_map(m: Seq<(Seq<char>, Seq<char>)>) -> JsonV {
    JsonV::Object(Seq::new(m.len(), |i: int| (m[i].0, JsonV::Str(m[i].1))))
}

/// The object whose members are the pairs of `m`, each value a string.
pub fn text_map_json(m: &Vec<(String, String)>) -> (r: Json)
    ensures
        r@ == text_map(assoc::entries_view(m@)),
{
    let mut entries: Vec<(String, Json)> = Vec::new();
    let mut i: usize = 0;
    while i < m.len()
        invariant
            i <= m.len(),
            entries@.len() == i,
            forall|k: int|
                0 <= k < i ==> entries@[k].0@ == m@[k].0@ && entries@[k].1@ == JsonV::Str(
                    m@[k].1@,
                ),
        decreases m.len() - i,
    {
        entries.push((m[i].0.clone(), Json::Str(m[i].1.clone())));
        i += 1;
    }
    let ghost want = text_map(assoc::entries_view(m@));
    assert(assoc::entries_view(entries@) =~= want->Object_0);
    object(entries)
}

/// The members of an object of strings as pairs of texts.
pub open spec fn text_pairs(entries: Seq<(Seq<char>, JsonV)>) -> Seq<(Seq<char>, Seq<char>)> {
    Seq::new(entries.len(), |i: int| (entries[i].0, entries[i].1->Str_0))
}

/// The map that an object of strings holds, each key once; `None` where `j`
/// is not an object or a member is not a string.
pub open spec fn as_text_map(j: JsonV) -> Option<Seq<(Seq<char>, Seq<char>)>> {
    match j {
        JsonV::Object(entries) => if forall|i: int|
            0 <= i < entries.len() ==> (#[trigger] entries[i]).1 is Str {
            Some(assoc::collected(text_pairs(entries)))
        } else {
            None
        },
        _ => None,
    }
}

/// Reads an object of strings, as a map that holds each key once.
pub fn read_text_map(j: &Json) -> (r: Option<Vec<(String, String)>>)
    ensures
        match r {
            Some(m) => as_text_map(j@) == Some(assoc::entries_view(m@)) && assoc::unique_keys(
                assoc::entries_view(m@),
            ),
            None => as_text_map(j@) is None,
        },
{
    match j.as_object() {
        None => None,
        Some(entries) => {
            let mut out: Vec<(String, String)> = Vec::new();
            let mut i: usize = 0;
            while i < entries.len()
                invariant
                    i <= entries.len(),
                    out@.len() == i,
                    j@.as_object() == Some(assoc::entries_view(entries@)),
                    forall|k: int|
                        0 <= k < i ==> (#[trigger] assoc::entries_view(entries@)[k]).1 is Str,
                    forall|k: int|
                        0 <= k < i ==> out@[k].0@ == entries@[k].0@ && JsonV::Str(out@[k].1@)
                            == entries@[k].1@,
                decreases entries.len() - i,
            {
                match &entries[i].1 {
                    Json::Str(t) => {
                        out.push((entries[i].0.clone(), t.clone()));
                    },
                    _ => {
                        assert(!(assoc::entries_view(entries@)[i as int].1 is Str));
                        return None;
                    },
                }
                i += 1;
            }
            assert(as_text_map(j@) is Some);
            assert(assoc::entries_view(out@) =~= text_pairs(assoc::entries_view(entries@)));
            Some(assoc::collect(out))
        },
    }
}

/// The text of a string member that may be left out: no text where it is
/// missing; `None` where it is no string.
pub open spec fn str_or_empty_at(j: JsonV, key: Seq<char>) -> Option<Seq<char>> {
    match j.get(key) {
        None => Some(Seq::empty()),
        Some(JsonV::Str(t)) => Some(t),
        Some(_) => None,
    }
}

/// The value of a truth member that may be left out: false where it is
/// missing; `None` where it is no truth value.
pub open spec fn bool_or_false_at(j: JsonV, key: Seq<char>) -> Option<bool> {
    match j.get(key) {
        None => Some(false),
        Some(JsonV::Bool(b)) => Some(b),
        Some(_) => None,
    }
}

/// The map that an object member that may be left out holds, each key
/// once: empty where the member is missing; `None` where it is no object.
pub open spec fn entries_or_none_at(j: JsonV, key: Seq<char>) -> Option<Seq<(Seq<char>, JsonV)>> {
    match j.get(key) {
        None => Some(Seq::empty()),
        Some(JsonV::Object(entries)) => Some(assoc::collected(entries)),
        Some(_) => None,
    }
}

/// Reads a string member that may be left out.
pub fn read_str_or_empty(j: &Json, key: &str) -> (r: Option<String>)
    ensures
        opt_view(r) == str_or_empty_at(j@, key@),
{
    match j.get(key) {
        None => Some(String::new()),
        Some(Json::Str(t)) => Some(t.clone()),
        Some(_) => None,
    }
}

/// Reads a truth member that may be left out.
pub fn read_bool_or_false(j: &Json, key: &str) -> (r: Option<bool>)
    ensures
        r == bool_or_false_at(j@, key@),
{
    match j.get(key) {
        None => Some(false),
        Some(Json::Bool(b)) => Some(*b),
        Some(_) => None,
    }
}

/// A copy of the entries of an object.
pub fn clone_entries(entries: &Vec<(String, Json)>) -> (r: Vec<(String, Json)>)
    ensures
        assoc::entries_view(r@) == assoc::entries_view(entries@),
{
    let mut out: Vec<(String, Json)> = Vec::new();
    let mut i: usize = 0;
    while i < entries.len()
        invariant
            i <= entries.len(),
            out@.len() == i,
            forall|k: int|
                0 <= k < i ==> out@[k].0@ == entries@[k].0@ && out@[k].1@ == entries@[k].1@,
        decreases entries.len() - i,
    {
        out.push((entries[i].0.clone(), entries[i].1.deep_clone()));
        i += 1;
    }
    assert(assoc::entries_view(out@) =~= assoc::entries_view(entries@));
    out
}

/// The view of optional entries.
pub open spec fn opt_entries(r: Option<Vec<(String, Json)>>) -> Option<Seq<(Seq<char>, JsonV)>> {
    match r {
        Some(e) => Some(assoc::entries_view(e@)),
        None => None,
    }
}

/// Reads an object member that may be left out, as a map that holds each key once.
pub fn read_entries_or_none(j: &Json, key: &str) -> (r: Option<Vec<(String, Json)>>)
    ensures
        opt_entries(r) == entries_or_none_at(j@, key@),
        r matches Some(e) ==> assoc::unique_keys(assoc::entries_view(e@)),
{
    match j.get(key) {
        None => Some(no_members()),
        Some(v) => match v.as_object() {
            Some(entries) => Some(assoc::collect(clone_entries(entries))),
            None => None,
        },
    }
}

/// The value for an optional text: the string, or null.
pub open spec fn str_or_null(t: Option<Seq<char>>) -> JsonV {
    match t {
        Some(v) => JsonV::Str(v),
        None => JsonV::Null,
    }
}

/// The value for an optional text: the string, or null.
pub fn opt_str_json(t: &Option<String>) -> (r: Json)
    ensures
        r@ == str_or_null(opt_view(*t)),
{
    match t {
        Some(v) => Json::Str(v.clone()),
        None => Json::Null,
    }
}

/// The view of optional bytes.
pub open spec fn opt_bytes_view(b: Option<Vec<u8>>) -> Option<Seq<u8>> {
    match b {
        Some(v) => Some(v@),
        None => None,
    }
}

/// An object of strings reads back as the map it was written for.
pub proof fn lemma_text_map_round_trip(m: Seq<(Seq<char>, Seq<char>)>)
    requires
        assoc::unique_keys(m),
    ensures
        as_text_map(text_map(m)) == Some(m),
{
    let entries = text_map(m)->Object_0;
    assert forall|i: int| 0 <= i < entries.len() implies (#[trigger] entries[i]).1 is Str by {}
    assert(text_pairs(entries) =~= m);
    assoc::lemma_collected(m);
}

} // verus!
