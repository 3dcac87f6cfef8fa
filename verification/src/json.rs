//! JSON values as the library reads them.
//!
//! A [`Json`] holds what the decisions in this crate look at: text, integers, booleans,
//! arrays and objects. A number that is no 64-bit signed integer is kept as such, without
//! its digits. Parsing and quoting are `serde_json`'s.

use vstd::prelude::*;

use crate::text::{join5, same};

verus! {

/// What a [`Json`] value is, as a mathematical tree.
pub enum JsonTree {
    Null,
    Bool(bool),
    /// The integer, where the number is one that fits in 64 signed bits.
    Number(Option<int>),
    Text(Seq<char>),
    Array(Seq<JsonTree>),
    /// Key and value pairs; the first pair with a key is the one that counts.
    Object(Seq<(Seq<char>, JsonTree)>),
}

/// A JSON value.
#[derive(Debug)]
pub enum Json {
    Null,
    Bool(bool),
    /// The integer, where the number is one that fits in 64 signed bits.
    Number(Option<i64>),
    Text(String),
    Array(Vec<Json>),
    /// Key and value pairs; the first pair with a key is the one that counts.
    Object(Vec<(String, Json)>),
}

impl Json {
    /// The tree that this value stands for.
    pub open spec fn tree(self) -> JsonTree
        decreases self,
    {
        match self {
            Json::Null => JsonTree::Null,
            Json::Bool(b) => JsonTree::Bool(b),
            Json::Number(Some(n)) => JsonTree::Number(Some(n as int)),
            Json::Number(None) => JsonTree::Number(None),
            Json::Text(s) => JsonTree::Text(s@),
            Json::Array(a) => JsonTree::Array(
                Seq::new(
                    a@.len(),
                    |i: int|
                        if 0 <= i < a@.len() {
                            a@[i].tree()
                        } else {
                            JsonTree::Null
                        },
                ),
            ),
            Json::Object(o) => JsonTree::Object(
                Seq::new(
                    o@.len(),
                    |i: int|
                        if 0 <= i < o@.len() {
                            (o@[i].0@, o@[i].1.tree())
                        } else {
                            (Seq::empty(), JsonTree::Null)
                        },
                ),
            ),
        }
    }
}

impl View for Json {
    type V = JsonTree;

    open spec fn view(&self) -> JsonTree {
        self.tree()
    }
}

/// The value of the first pair of `pairs`, from `from` on, whose key is `key`.
pub open spec fn lookup(pairs: Seq<(Seq<char>, JsonTree)>, key: Seq<char>, from: int) -> Option<
    JsonTree,
>
    decreases pairs.len() - from,
{
    if from < 0 || from >= pairs.len() {
        None
    } else if pairs[from].0 == key {
        Some(pairs[from].1)
    } else {
        lookup(pairs, key, from + 1)
    }
}

impl JsonTree {
    /// The value of field `key`, where this is an object that has one.
    pub open spec fn field(self, key: Seq<char>) -> Option<JsonTree> {
        match self {
            JsonTree::Object(pairs) => lookup(pairs, key, 0),
            _ => None,
        }
    }

    /// The text of field `key`, where there is one and it is text.
    pub open spec fn text_field(self, key: Seq<char>) -> Option<Seq<char>> {
        match self.field(key) {
            Some(JsonTree::Text(s)) => Some(s),
            _ => None,
        }
    }

    /// The integer of field `key`, where there is one that fits in 64 signed bits.
    pub open spec fn integer_field(self, key: Seq<char>) -> Option<int> {
        match self.field(key) {
            Some(JsonTree::Number(n)) => n,
            _ => None,
        }
    }

    /// The boolean of field `key`, where there is one.
    pub open spec fn bool_field(self, key: Seq<char>) -> Option<bool> {
        match self.field(key) {
            Some(JsonTree::Bool(b)) => Some(b),
            _ => None,
        }
    }

    /// The elements of field `key`, where there is one and it is an array.
    pub open spec fn array_field(self, key: Seq<char>) -> Option<Seq<JsonTree>> {
        match self.field(key) {
            Some(JsonTree::Array(a)) => Some(a),
            _ => None,
        }
    }
}

/// An optional string, viewed.
pub open spec fn opt_str(o: Option<&str>) -> Option<Seq<char>> {
    match o {
        Some(s) => Some(s@),
        None => None,
    }
}

impl Json {
    /// The value of field `key`, where this is an object that has one.
    pub fn get(&self, key: &str) -> (r: Option<&Json>)
        ensures
            match r {
                Some(v) => self@.field(key@) == Some(v@),
                None => self@.field(key@) is None,
            },
    {
        match self {
            Json::Object(o) => {
                let ghost pairs = self@->Object_0;
                let mut i: usize = 0;
                while i < o.len()
                    invariant
                        i <= o@.len(),
                        self@ == JsonTree::Object(pairs),
                        pairs.len() == o@.len(),
                        forall|k: int|
                            0 <= k < o@.len() ==> #[trigger] pairs[k] == (o@[k].0@, o@[k].1@),
                        self@.field(key@) == lookup(pairs, key@, i as int),
                    decreases o@.len() - i,
                {
                    if same(&o[i].0, key) {
                        return Some(&o[i].1);
                    }
                    i = i + 1;
                }
                None
            },
            _ => None,
        }
    }

    /// The text of field `key`, where there is one and it is text.
    pub fn get_str(&self, key: &str) -> (r: Option<&str>)
        ensures
            opt_str(r) == self@.text_field(key@),
    {
        match self.get(key) {
            Some(Json::Text(s)) => Some(s.as_str()),
            _ => None,
        }
    }

    /// The integer of field `key`, where there is one that fits in 64 signed bits.
    pub fn get_i64(&self, key: &str) -> (r: Option<i64>)
        ensures
            match r {
                Some(n) => self@.integer_field(key@) == Some(n as int),
                None => self@.integer_field(key@) is None,
            },
    {
        match self.get(key) {
            Some(Json::Number(Some(n))) => Some(*n),
            _ => None,
        }
    }

    /// The boolean of field `key`, where there is one.
    pub fn get_bool(&self, key: &str) -> (r: Option<bool>)
        ensures
            r == self@.bool_field(key@),
    {
        match self.get(key) {
            Some(Json::Bool(b)) => Some(*b),
            _ => None,
        }
    }

    /// The elements of field `key`, where there is one and it is an array.
    pub fn get_array(&self, key: &str) -> (r: Option<&Vec<Json>>)
        ensures
            match r {
                Some(a) => self@.array_field(key@) == Some(elements(a@)),
                None => self@.array_field(key@) is None,
            },
    {
        match self.get(key) {
            Some(Json::Array(a)) => {
                assert(self@.array_field(key@)->0 =~= elements(a@));
                Some(a)
            },
            _ => None,
        }
    }
}

/// Every element of `a`, viewed.
pub open spec fn elements(a: Seq<Json>) -> Seq<JsonTree> {
    a.map_values(|j: Json| j@)
}

/// A parsed `serde_json` value; opaque here.
#[verifier::external_type_specification]
#[verifier::external_body]
pub struct ExValue(serde_json::Value);

/// What a `serde_json` value holds.
pub uninterp spec fn json_held(v: serde_json::Value) -> JsonTree;

/// What `serde_json::from_str` makes of a text: a tree, or where it is no JSON the reason.
pub uninterp spec fn json_text(text: Seq<char>) -> Result<JsonTree, Seq<char>>;

/// Whether a text is JSON that stands for `tree`.
pub open spec fn reads_as(text: Seq<char>, tree: JsonTree) -> bool {
    match json_text(text) {
        Ok(t) => t == tree,
        Err(_) => false,
    }
}

/// The tree that `serde_json::from_slice` reads from some bytes; `None` where they are no JSON.
pub uninterp spec fn json_slice(bytes: Seq<u8>) -> Option<JsonTree>;

/// The JSON string literal that `serde_json::to_string` writes for a text.
pub uninterp spec fn json_quoted(text: Seq<char>) -> Seq<char>;

/// `serde_json::from_str`, into a `serde_json` value: succeeds exactly on the texts that
/// [`json_text`] gives a tree for, and the value holds that tree; a failure is shown as
/// `serde_json` words it.
#[verifier::external_body]
fn parse_value(text: &str) -> (r: Result<serde_json::Value, String>)
    ensures
        match r {
            Ok(v) => reads_as(text@, json_held(v)),
            Err(e) => json_text(text@) == Err::<JsonTree, Seq<char>>(e@),
        },
{
    serde_json::from_str(text).map_err(|e| e.to_string())
}

/// `serde_json::from_slice`, into a `serde_json` value: succeeds exactly on the bytes that
/// [`json_slice`] gives a tree for, and the value holds that tree.
#[verifier::external_body]
fn parse_slice(bytes: &[u8]) -> (r: Option<serde_json::Value>)
    ensures
        match r {
            Some(v) => json_slice(bytes@) == Some(json_held(v)),
            None => json_slice(bytes@) is None,
        },
{
    serde_json::from_slice(bytes).ok()
}

/// Move a `serde_json` value into a [`Json`], variant by variant; `serde_json::Number::as_i64`
/// gives the integer where the number is one that fits.
#[verifier::external_body]
fn from_value(v: serde_json::Value) -> (j: Json)
    ensures
        j@ == json_held(v),
{
    match v {
        serde_json::Value::Null => Json::Null,
        serde_json::Value::Bool(b) => Json::Bool(b),
        serde_json::Value::Number(n) => Json::Number(n.as_i64()),
        serde_json::Value::String(s) => Json::Text(s),
        serde_json::Value::Array(a) => Json::Array(a.into_iter().map(from_value).collect()),
        serde_json::Value::Object(o) => {
            Json::Object(o.into_iter().map(|(k, v)| (k, from_value(v))).collect())
        },
    }
}

/// Read a JSON text, or say why it is none.
pub fn parse(text: &str) -> (r: Result<Json, String>)
    ensures
        match r {
            Ok(j) => reads_as(text@, j@),
            Err(e) => json_text(text@) == Err::<JsonTree, Seq<char>>(e@),
        },
{
    match parse_value(text) {
        Ok(v) => Ok(from_value(v)),
        Err(e) => Err(e),
    }
}

/// Read JSON bytes; `None` where they are no JSON.
pub fn parse_bytes(bytes: &[u8]) -> (r: Option<Json>)
    ensures
        match r {
            Some(j) => json_slice(bytes@) == Some(j@),
            None => json_slice(bytes@) is None,
        },
{
    match parse_slice(bytes) {
        Some(v) => Some(from_value(v)),
        None => None,
    }
}

/// `serde_json::to_string` on a string: its JSON literal, which reads back as the string.
#[verifier::external_body]
pub(crate) fn quote(text: &str) -> (s: String)
    ensures
        s@ == json_quoted(text@),
        reads_as(s@, JsonTree::Text(text@)),
{
    serde_json::to_string(text).expect("a string always serializes")
}

/// The JSON object with one field, which holds a text.
pub open spec fn text_object(key: Seq<char>, value: Seq<char>) -> Seq<char> {
    "{"@ + json_quoted(key) + ":"@ + json_quoted(value) + "}"@
}

/// Write the JSON object with one field, which holds a text.
pub fn write_text_object(key: &str, value: &str) -> (r: String)
    ensures
        r@ == text_object(key@, value@),
{
    join5("{", &quote(key), ":", &quote(value), "}")
}

proof fn lookup_finds(pairs: Seq<(Seq<char>, JsonTree)>, key: Seq<char>, from: int) -> (i: int)
    requires
        0 <= from <= pairs.len(),
    ensures
        from <= i <= pairs.len(),
        forall|j: int| from <= j < i ==> (#[trigger] pairs[j]).0 != key,
        match lookup(pairs, key, from) {
            Some(v) => i < pairs.len() && pairs[i] == (key, v),
            None => i == pairs.len(),
        },
    decreases pairs.len() - from,
{
    if from < pairs.len() && pairs[from].0 != key {
        lookup_finds(pairs, key, from + 1)
    } else {
        from
    }
}

/// A field of an object is the first that has its name; there is none where no pair has it, and
/// none in anything but an object.
pub proof fn a_field_is_the_first_of_its_name(tree: JsonTree, key: Seq<char>)
    ensures
        tree.field(key) is Some ==> tree is Object,
        tree matches JsonTree::Object(pairs) ==> match tree.field(key) {
            Some(v) => exists|i: int|
                0 <= i < pairs.len() && #[trigger] pairs[i] == (key, v) && forall|j: int|
                    0 <= j < i ==> (#[trigger] pairs[j]).0 != key,
            None => forall|j: int| 0 <= j < pairs.len() ==> (#[trigger] pairs[j]).0 != key,
        },
        tree.text_field(key) matches Some(t) ==> tree.field(key) == Some(JsonTree::Text(t)),
        tree.integer_field(key) matches Some(n) ==> tree.field(key) == Some(
            JsonTree::Number(Some(n)),
        ),
        tree.bool_field(key) matches Some(b) ==> tree.field(key) == Some(JsonTree::Bool(b)),
        tree.array_field(key) matches Some(a) ==> tree.field(key) == Some(JsonTree::Array(a)),
{
    if tree is Object {
        let pairs = tree->Object_0;
        let i: int = lookup_finds(pairs, key, 0);
        if i < pairs.len() {
            assert(pairs[i].0 == key);
        }
    }
}

} // verus!
