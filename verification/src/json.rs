use vstd::prelude::*;
use vstd::string::StringExecFns;
use crate::decode::{lemma_try_map_fails, lemma_try_map_step, outcome_view, try_map};
use crate::error::LoadError;
use crate::scalar::Scalar;

verus! {

/// A number of a document: as an integer where it is one that fits sixty-four
/// signed bits, and as a scalar.
#[derive(Clone, Copy, Debug, PartialEq, Eq)]
pub struct Number {
    pub integer: Option<i64>,
    pub scalar: Option<Scalar>,
}

/// A parsed document.
#[derive(Debug, PartialEq, Eq)]
pub enum Json {
    Null,
    Bool(bool),
    Number(Number),
    Text(String),
    Array(Vec<Json>),
    Object(Vec<Member>),
}

/// One named entry of an object.
#[derive(Debug, PartialEq, Eq)]
pub struct Member {
    pub key: String,
    pub value: Json,
}

/// The mathematical value of a parsed document.
pub ghost enum JsonView {
    Null,
    Bool(bool),
    Number(Number),
    Text(Seq<char>),
    Array(Seq<JsonView>),
    Object(Seq<(Seq<char>, JsonView)>),
}

/// The mathematical value of a document: texts as sequences of characters,
/// arrays and objects as sequences of the values of what they hold.
pub open spec fn json_view(j: Json) -> JsonView
    decreases j,
{
    match j {
        Json::Null => JsonView::Null,
        Json::Bool(b) => JsonView::Bool(b),
        Json::Number(n) => JsonView::Number(n),
        Json::Text(t) => JsonView::Text(t@),
        Json::Array(items) => JsonView::Array(
            Seq::new(
                items.len() as nat,
                |i: int|
                    if 0 <= i < items.len() {
                        json_view(items[i])
                    } else {
                        JsonView::Null
                    },
            ),
        ),
        Json::Object(members) => JsonView::Object(
            Seq::new(
                members.len() as nat,
                |i: int|
                    if 0 <= i < members.len() {
                        (members[i].key@, json_view(members[i].value))
                    } else {
                        (Seq::empty(), JsonView::Null)
                    },
            ),
        ),
    }
}

impl DeepView for Json {
    type V = JsonView;

    open spec fn deep_view(&self) -> JsonView {
        json_view(*self)
    }
}

/// The value of the first entry named `key`, if there is one.
pub open spec fn lookup(members: Seq<(Seq<char>, JsonView)>, key: Seq<char>) -> Option<JsonView>
    decreases members.len(),
{
    if members.len() == 0 {
        None
    } else if members[0].0 == key {
        Some(members[0].1)
    } else {
        lookup(members.drop_first(), key)
    }
}

impl JsonView {
    /// The entry named `key` of an object.
    pub open spec fn member(self, key: Seq<char>) -> Option<JsonView> {
        match self {
            JsonView::Object(members) => lookup(members, key),
            _ => None,
        }
    }

    /// The entry named `key` of an object, where it is there and not null.
    pub open spec fn field(self, key: Seq<char>) -> Option<JsonView> {
        match self.member(key) {
            Some(v) => if v is Null {
                None
            } else {
                Some(v)
            },
            None => None,
        }
    }

    pub open spec fn text(self) -> Option<Seq<char>> {
        match self {
            JsonView::Text(t) => Some(t),
            _ => None,
        }
    }

    pub open spec fn integer(self) -> Option<i64> {
        match self {
            JsonView::Number(n) => n.integer,
            _ => None,
        }
    }

    pub open spec fn scalar(self) -> Option<Scalar> {
        match self {
            JsonView::Number(n) => n.scalar,
            _ => None,
        }
    }

    pub open spec fn flag(self) -> Option<bool> {
        match self {
            JsonView::Bool(b) => Some(b),
            _ => None,
        }
    }

    pub open spec fn items(self) -> Option<Seq<JsonView>> {
        match self {
            JsonView::Array(items) => Some(items),
            _ => None,
        }
    }

    /// An optional text: absent where the entry is missing or null, an error
    /// where it is there and no text.
    pub open spec fn text_field(self, key: Seq<char>) -> Result<Option<Seq<char>>, LoadError> {
        match self.field(key) {
            None => Ok(None),
            Some(v) => match v.text() {
                Some(t) => Ok(Some(t)),
                None => Err(LoadError::Parse),
            },
        }
    }

    pub open spec fn integer_field(self, key: Seq<char>) -> Result<Option<i64>, LoadError> {
        match self.field(key) {
            None => Ok(None),
            Some(v) => match v.integer() {
                Some(i) => Ok(Some(i)),
                None => Err(LoadError::Parse),
            },
        }
    }

    pub open spec fn scalar_field(self, key: Seq<char>) -> Result<Option<Scalar>, LoadError> {
        match self.field(key) {
            None => Ok(None),
            Some(v) => match v.scalar() {
                Some(x) => Ok(Some(x)),
                None => Err(LoadError::Parse),
            },
        }
    }

    pub open spec fn flag_field(self, key: Seq<char>) -> Result<Option<bool>, LoadError> {
        match self.field(key) {
            None => Ok(None),
            Some(v) => match v.flag() {
                Some(b) => Ok(Some(b)),
                None => Err(LoadError::Parse),
            },
        }
    }

    /// An optional array: its items, none where the entry is missing or null.
    pub open spec fn items_field(self, key: Seq<char>) -> Result<Seq<JsonView>, LoadError> {
        match self.field(key) {
            None => Ok(Seq::empty()),
            Some(v) => match v.items() {
                Some(items) => Ok(items),
                None => Err(LoadError::Parse),
            },
        }
    }

    /// An optional object.
    pub open spec fn object_field(self, key: Seq<char>) -> Result<Option<JsonView>, LoadError> {
        match self.field(key) {
            None => Ok(None),
            Some(v) => if v is Object {
                Ok(Some(v))
            } else {
                Err(LoadError::Parse)
            },
        }
    }
}

/// A text, or an error where the value is none.
pub open spec fn text_of(j: JsonView) -> Result<Seq<char>, LoadError> {
    match j.text() {
        Some(t) => Ok(t),
        None => Err(LoadError::Parse),
    }
}

pub open spec fn text_decoder() -> spec_fn(JsonView) -> Result<Seq<char>, LoadError> {
    |j: JsonView| text_of(j)
}

/// A list of texts, all or none.
pub open spec fn texts_of(items: Seq<JsonView>) -> Result<Seq<Seq<char>>, LoadError> {
    try_map(items, text_decoder())
}

/// What is owed where an entry must be there.
pub open spec fn required<T>(found: Result<Option<T>, LoadError>) -> Result<T, LoadError> {
    match found {
        Ok(Some(t)) => Ok(t),
        Ok(None) => Err(LoadError::Parse),
        Err(e) => Err(e),
    }
}

/// What stands in where an entry is left out.
pub open spec fn or_default<T>(found: Result<Option<T>, LoadError>, default: T) -> Result<
    T,
    LoadError,
> {
    match found {
        Ok(Some(t)) => Ok(t),
        Ok(None) => Ok(default),
        Err(e) => Err(e),
    }
}

/// An optional count: an integer that is not negative.
pub open spec fn count_field(j: JsonView, key: Seq<char>) -> Result<Option<u64>, LoadError> {
    match j.integer_field(key) {
        Err(e) => Err(e),
        Ok(None) => Ok(None),
        Ok(Some(i)) => if i < 0 {
            Err(LoadError::Parse)
        } else {
            Ok(Some(i as u64))
        },
    }
}

/// Whether a text reads as `literal` does.
pub fn text_is(text: &String, literal: &str) -> (r: bool)
    ensures
        r == (text@ == literal@),
{
    let wanted = String::from_str(literal);
    *text == wanted
}

/// What must be there: `None` becomes a parse error.
pub fn require<T>(found: Result<Option<T>, LoadError>) -> (r: Result<T, LoadError>)
    ensures
        r == required(found),
{
    match found {
        Ok(Some(t)) => Ok(t),
        Ok(None) => Err(LoadError::Parse),
        Err(e) => Err(e),
    }
}

/// What may be left out: `None` becomes `default`.
pub fn or_value<T>(found: Result<Option<T>, LoadError>, default: T) -> (r: Result<T, LoadError>)
    ensures
        r == or_default(found, default),
{
    match found {
        Ok(Some(t)) => Ok(t),
        Ok(None) => Ok(default),
        Err(e) => Err(e),
    }
}

pub open spec fn text_found(r: Result<Option<String>, LoadError>) -> Result<
    Option<Seq<char>>,
    LoadError,
> {
    match r {
        Ok(Some(t)) => Ok(Some(t@)),
        Ok(None) => Ok(None),
        Err(e) => Err(e),
    }
}

pub open spec fn object_found(r: Result<Option<&Json>, LoadError>) -> Result<
    Option<JsonView>,
    LoadError,
> {
    match r {
        Ok(Some(j)) => Ok(Some(j.deep_view())),
        Ok(None) => Ok(None),
        Err(e) => Err(e),
    }
}

impl Json {
    pub fn member(&self, key: &str) -> (r: Option<&Json>)
        ensures
            r.deep_view() == self.deep_view().member(key@),
    {
        match self {
            Json::Object(members) => {
                let wanted = String::from_str(key);
                let ghost all = self.deep_view()->Object_0;
                let mut i: usize = 0;
                assert(all.skip(0) =~= all);
                while i < members.len()
                    invariant
                        i <= members.len(),
                        wanted@ == key@,
                        all == json_view(*self)->Object_0,
                        *self == Json::Object(*members),
                        lookup(all, key@) == lookup(all.skip(i as int), key@),
                    decreases members.len() - i,
                {
                    assert(all.skip(i as int)[0] == all[i as int]);
                    assert(all.skip(i as int).drop_first() =~= all.skip(i + 1));
                    if members[i].key == wanted {
                        return Some(&members[i].value);
                    }
                    i += 1;
                }
                None
            },
            _ => None,
        }
    }

    pub fn field(&self, key: &str) -> (r: Option<&Json>)
        ensures
            r.deep_view() == self.deep_view().field(key@),
    {
        match self.member(key) {
            Some(Json::Null) => None,
            other => other,
        }
    }

    pub fn is_object(&self) -> (r: bool)
        ensures
            r == (self.deep_view() is Object),
    {
        match self {
            Json::Object(_) => true,
            _ => false,
        }
    }

    pub fn as_text(&self) -> (r: Option<&String>)
        ensures
            r.deep_view() == self.deep_view().text(),
    {
        match self {
            Json::Text(t) => Some(t),
            _ => None,
        }
    }

    pub fn as_integer(&self) -> (r: Option<i64>)
        ensures
            r == self.deep_view().integer(),
    {
        match self {
            Json::Number(n) => n.integer,
            _ => None,
        }
    }

    pub fn as_scalar(&self) -> (r: Option<Scalar>)
        ensures
            r == self.deep_view().scalar(),
    {
        match self {
            Json::Number(n) => n.scalar,
            _ => None,
        }
    }

    pub fn as_flag(&self) -> (r: Option<bool>)
        ensures
            r == self.deep_view().flag(),
    {
        match self {
            Json::Bool(b) => Some(*b),
            _ => None,
        }
    }

    pub fn as_items(&self) -> (r: Option<&Vec<Json>>)
        ensures
            r.deep_view() == self.deep_view().items(),
    {
        match self {
            Json::Array(items) => Some(items),
            _ => None,
        }
    }

    pub fn text_field(&self, key: &str) -> (r: Result<Option<String>, LoadError>)
        ensures
            text_found(r) == self.deep_view().text_field(key@),
    {
        match self.field(key) {
            None => Ok(None),
            Some(v) => match v.as_text() {
                Some(t) => Ok(Some(t.clone())),
                None => Err(LoadError::Parse),
            },
        }
    }

    pub fn integer_field(&self, key: &str) -> (r: Result<Option<i64>, LoadError>)
        ensures
            r == self.deep_view().integer_field(key@),
    {
        match self.field(key) {
            None => Ok(None),
            Some(v) => match v.as_integer() {
                Some(i) => Ok(Some(i)),
                None => Err(LoadError::Parse),
            },
        }
    }

    pub fn count_field(&self, key: &str) -> (r: Result<Option<u64>, LoadError>)
        ensures
            r == count_field(self.deep_view(), key@),
    {
        match self.integer_field(key)? {
            None => Ok(None),
            Some(i) => if i < 0 {
                Err(LoadError::Parse)
            } else {
                Ok(Some(i as u64))
            },
        }
    }

    pub fn scalar_field(&self, key: &str) -> (r: Result<Option<Scalar>, LoadError>)
        ensures
            r == self.deep_view().scalar_field(key@),
    {
        match self.field(key) {
            None => Ok(None),
            Some(v) => match v.as_scalar() {
                Some(x) => Ok(Some(x)),
                None => Err(LoadError::Parse),
            },
        }
    }

    pub fn flag_field(&self, key: &str) -> (r: Result<Option<bool>, LoadError>)
        ensures
            r == self.deep_view().flag_field(key@),
    {
        match self.field(key) {
            None => Ok(None),
            Some(v) => match v.as_flag() {
                Some(b) => Ok(Some(b)),
                None => Err(LoadError::Parse),
            },
        }
    }

    /// The items of an optional array; `None` stands for no items.
    pub fn items_field(&self, key: &str) -> (r: Result<Option<&Vec<Json>>, LoadError>)
        ensures
            match r {
                Ok(Some(items)) => self.deep_view().items_field(key@) == Ok::<
                    Seq<JsonView>,
                    LoadError,
                >(items.deep_view()),
                Ok(None) => self.deep_view().items_field(key@) == Ok::<Seq<JsonView>, LoadError>(
                    Seq::empty(),
                ),
                Err(e) => self.deep_view().items_field(key@) == Err::<Seq<JsonView>, LoadError>(e),
            },
    {
        match self.field(key) {
            None => Ok(None),
            Some(v) => match v.as_items() {
                Some(items) => Ok(Some(items)),
                None => Err(LoadError::Parse),
            },
        }
    }

    /// Decodes a list of texts, all or none.
    pub fn texts(items: &Vec<Json>) -> (r: Result<Vec<String>, LoadError>)
        ensures
            outcome_view(r) == texts_of(items.deep_view()),
    {
        let mut out: Vec<String> = Vec::new();
        let mut i: usize = 0;
        let ghost all = items.deep_view();
        assert(out.deep_view() =~= Seq::<Seq<char>>::empty());
        while i < items.len()
            invariant
                i <= items.len(),
                all == items.deep_view(),
                try_map(all.take(i as int), text_decoder()) == Ok::<Seq<Seq<char>>, LoadError>(
                    out.deep_view(),
                ),
            decreases items.len() - i,
        {
            proof {
                lemma_try_map_step(all, text_decoder(), i as int);
            }
            match items[i].as_text() {
                Some(t) => {
                    let ghost before = out.deep_view();
                    out.push(t.clone());
                    assert(out.deep_view() =~= before.push(t@));
                },
                None => {
                    proof {
                        lemma_try_map_fails(all, text_decoder(), i + 1, all.len() as int);
                        assert(all.take(all.len() as int) =~= all);
                    }
                    return Err(LoadError::Parse);
                },
            }
            i += 1;
        }
        assert(all.take(all.len() as int) =~= all);
        Ok(out)
    }

    /// The texts of an optional array of texts.
    pub fn texts_field(&self, key: &str) -> (r: Result<Vec<String>, LoadError>)
        ensures
            outcome_view(r) == match self.deep_view().items_field(key@) {
                Ok(items) => texts_of(items),
                Err(e) => Err(e),
            },
    {
        match self.items_field(key)? {
            Some(items) => Json::texts(items),
            None => {
                let none: Vec<String> = Vec::new();
                assert(none.deep_view() =~= Seq::<Seq<char>>::empty());
                Ok(none)
            },
        }
    }

    pub fn object_field(&self, key: &str) -> (r: Result<Option<&Json>, LoadError>)
        ensures
            object_found(r) == self.deep_view().object_field(key@),
    {
        match self.field(key) {
            None => Ok(None),
            Some(v) => match v {
                Json::Object(_) => Ok(Some(v)),
                _ => Err(LoadError::Parse),
            },
        }
    }
}

/// The document type of the JSON reader this library parses with.
#[verifier::external_type_specification]
#[verifier::external_body]
pub struct ExValue(serde_json::Value);

/// The error type of the JSON reader.
#[verifier::external_type_specification]
#[verifier::external_body]
pub struct ExError(serde_json::Error);

/// What the JSON reader makes of a text: the document it holds, or nothing
/// where the text is not one JSON document.
pub uninterp spec fn json_text(bytes: Seq<u8>) -> Option<JsonView>;

/// The document that a value of the JSON reader holds.
pub uninterp spec fn value_tree(v: serde_json::Value) -> JsonView;

/// The top level of a value of the JSON reader, its children left as they
/// are: a number as the integer and as the bits of the double that the reader
/// has for it, the entries of an object as pairs.
enum Shape<'a> {
    Null,
    Bool(bool),
    Number(Option<i64>, Option<u64>),
    Text(&'a String),
    Array(&'a Vec<serde_json::Value>),
    Object(Vec<(&'a String, &'a serde_json::Value)>),
}

/// The document that a value holds, given its top level and the documents
/// that its children hold.
spec fn shape_view(s: Shape) -> JsonView {
    match s {
        Shape::Null => JsonView::Null,
        Shape::Bool(b) => JsonView::Bool(b),
        Shape::Number(integer, bits) => JsonView::Number(
            Number {
                integer,
                scalar: match bits {
                    Some(b) => Some(Scalar { bits: b }),
                    None => None,
                },
            },
        ),
        Shape::Text(t) => JsonView::Text(t@),
        Shape::Array(items) => JsonView::Array(
            Seq::new(items.len() as nat, |i: int| value_tree(items[i])),
        ),
        Shape::Object(members) => JsonView::Object(
            Seq::new(members.len() as nat, |i: int| (members[i].0@, value_tree(*members[i].1))),
        ),
    }
}

/// Calls `serde_json::from_slice` for a `serde_json::Value`. Assumed, not
/// proved: the call gives the same answer for the same bytes, an error where
/// the bytes are not one JSON document, and else a value that holds the
/// document.
#[verifier::external_body]
fn decode(bytes: &[u8]) -> (r: Result<serde_json::Value, serde_json::Error>)
    ensures
        match r {
            Ok(v) => json_text(bytes@) == Some(value_tree(v)),
            Err(_) => json_text(bytes@) is None,
        },
{
    serde_json::from_slice::<serde_json::Value>(bytes)
}

/// Tells the six variants of `serde_json::Value` apart and hands out what the
/// variant holds: a number as `Number::as_i64` and the bits of
/// `Number::as_f64` give it, the entries of an object in the order of
/// `Map::iter`. Assumed, not proved: the document that a value holds is made
/// of exactly that, and of the documents that its children hold.
#[verifier::external_body]
fn unfold<'a>(v: &'a serde_json::Value) -> (s: Shape<'a>)
    ensures
        shape_view(s) == value_tree(*v),
{
    match v {
        serde_json::Value::Null => Shape::Null,
        serde_json::Value::Bool(b) => Shape::Bool(*b),
        serde_json::Value::Number(n) => Shape::Number(n.as_i64(), n.as_f64().map(|x| x.to_bits())),
        serde_json::Value::String(t) => Shape::Text(t),
        serde_json::Value::Array(items) => Shape::Array(items),
        serde_json::Value::Object(members) => Shape::Object(members.iter().collect()),
    }
}

/// Copies a value of the JSON reader into a document of this library.
fn tree(v: &serde_json::Value) -> (j: Json)
    ensures
        j.deep_view() == value_tree(*v),
    decreases value_tree(*v),
{
    broadcast use vstd::seq::group_seq_axioms;
    match unfold(v) {
        Shape::Null => Json::Null,
        Shape::Bool(b) => Json::Bool(b),
        Shape::Number(integer, bits) => {
            let scalar = match bits {
                Some(b) => Some(Scalar { bits: b }),
                None => None,
            };
            Json::Number(Number { integer, scalar })
        },
        Shape::Text(t) => Json::Text(t.clone()),
        Shape::Array(items) => {
            let mut out: Vec<Json> = Vec::new();
            let mut i: usize = 0;
            while i < items.len()
                invariant
                    i <= items.len(),
                    out.len() == i,
                    value_tree(*v) == JsonView::Array(
                        Seq::new(items.len() as nat, |k: int| value_tree(items[k])),
                    ),
                    forall|k: int| 0 <= k < i ==> json_view(out[k]) == value_tree(items[k]),
                decreases items.len() - i,
            {
                proof {
                    let children = Seq::new(items.len() as nat, |k: int| value_tree(items[k]));
                    let whole = value_tree(*v);
                    assert(children[i as int] == value_tree(items[i as int]));
                    assert(decreases_to!(whole => whole->Array_0));
                    assert(decreases_to!(whole->Array_0 => whole->Array_0[i as int]));
                }
                let child = tree(&items[i]);
                out.push(child);
                i += 1;
            }
            let j = Json::Array(out);
            assert(json_view(j)->Array_0 =~= value_tree(*v)->Array_0);
            j
        },
        Shape::Object(members) => {
            let mut out: Vec<Member> = Vec::new();
            let mut i: usize = 0;
            while i < members.len()
                invariant
                    i <= members.len(),
                    out.len() == i,
                    value_tree(*v) == JsonView::Object(
                        Seq::new(
                            members.len() as nat,
                            |k: int| (members[k].0@, value_tree(*members[k].1)),
                        ),
                    ),
                    forall|k: int|
                        0 <= k < i ==> out[k].key@ == members[k].0@ && json_view(out[k].value)
                            == value_tree(*members[k].1),
                decreases members.len() - i,
            {
                proof {
                    let children = Seq::new(
                        members.len() as nat,
                        |k: int| (members[k].0@, value_tree(*members[k].1)),
                    );
                    let whole = value_tree(*v);
                    assert(children[i as int].1 == value_tree(*members[i as int].1));
                    assert(decreases_to!(whole => whole->Object_0));
                    assert(decreases_to!(whole->Object_0 => whole->Object_0[i as int]));
                    assert(decreases_to!(whole->Object_0[i as int] => whole->Object_0[i as int].1));
                }
                let value = tree(members[i].1);
                out.push(Member { key: members[i].0.clone(), value });
                i += 1;
            }
            let j = Json::Object(out);
            assert(json_view(j)->Object_0 =~= value_tree(*v)->Object_0);
            j
        },
    }
}

impl Json {
    /// Reads a JSON text.
    pub fn parse(bytes: &[u8]) -> (r: Option<Json>)
        ensures
            match r {
                Some(j) => json_text(bytes@) == Some(j.deep_view()),
                None => json_text(bytes@) is None,
            },
    {
        match decode(bytes) {
            Ok(v) => Some(tree(&v)),
            Err(_) => None,
        }
    }
}

} // verus!
