//! JSON documents. The library holds a document as a tree of its own, reads
//! and changes it in verified code, and leaves to `serde_json` what only a
//! parser and a writer can do: to turn bytes into a document and back.

use vstd::prelude::*;
use serde_json::Value;
use crate::text::str_eq;

verus! {

/// A JSON document. A number is held as an `i64` where it is one, else as a
/// `u64` where it is one, else as the text that stands for it.
#[derive(Debug, PartialEq)]
pub enum JsonDoc {
    Null,
    Bool(bool),
    Integer(i64),
    Unsigned(u64),
    Fraction(String),
    Text(String),
    Array(Vec<JsonDoc>),
    Object(Vec<(String, JsonDoc)>),
}

/// What a JSON document holds.
pub enum JsonModel {
    Null,
    Bool(bool),
    Integer(i64),
    Unsigned(u64),
    Fraction(Seq<char>),
    Text(Seq<char>),
    Array(Seq<JsonModel>),
    Object(Seq<(Seq<char>, JsonModel)>),
}

/// What a document holds.
pub open spec fn model_of(doc: JsonDoc) -> JsonModel
    decreases doc,
{
    match doc {
        JsonDoc::Null => JsonModel::Null,
        JsonDoc::Bool(flag) => JsonModel::Bool(flag),
        JsonDoc::Integer(value) => JsonModel::Integer(value),
        JsonDoc::Unsigned(value) => JsonModel::Unsigned(value),
        JsonDoc::Fraction(text) => JsonModel::Fraction(text@),
        JsonDoc::Text(text) => JsonModel::Text(text@),
        JsonDoc::Array(items) => JsonModel::Array(
            Seq::new(
                items@.len(),
                |i: int|
                    if 0 <= i < items@.len() {
                        model_of(items@[i])
                    } else {
                        JsonModel::Null
                    },
            ),
        ),
        JsonDoc::Object(members) => JsonModel::Object(
            Seq::new(
                members@.len(),
                |i: int|
                    if 0 <= i < members@.len() {
                        (members@[i].0@, model_of(members@[i].1))
                    } else {
                        (Seq::empty(), JsonModel::Null)
                    },
            ),
        ),
    }
}

impl View for JsonDoc {
    type V = JsonModel;

    open spec fn view(&self) -> JsonModel {
        model_of(*self)
    }
}

/// What the members of an object hold.
pub open spec fn members_view(members: Seq<(String, JsonDoc)>) -> Seq<(Seq<char>, JsonModel)> {
    Seq::new(members.len(), |i: int| (members[i].0@, members[i].1@))
}

/// What the items of an array hold.
pub open spec fn items_view(items: Seq<JsonDoc>) -> Seq<JsonModel> {
    Seq::new(items.len(), |i: int| items[i]@)
}

/// The view of an object is the view of its members.
pub proof fn lemma_object_view(members: Vec<(String, JsonDoc)>)
    ensures
        JsonDoc::Object(members)@ == JsonModel::Object(members_view(members@)),
{
    reveal_with_fuel(model_of, 2);
    assert(JsonDoc::Object(members)@->Object_0 =~= members_view(members@));
}

/// The view of an array is the view of its items.
pub proof fn lemma_array_view(items: Vec<JsonDoc>)
    ensures
        JsonDoc::Array(items)@ == JsonModel::Array(items_view(items@)),
{
    reveal_with_fuel(model_of, 2);
    assert(JsonDoc::Array(items)@->Array_0 =~= items_view(items@));
}

/// The position from `from` on of the first member with the given name, or
/// the number of members where there is none.
pub open spec fn member_index(members: Seq<(Seq<char>, JsonModel)>, name: Seq<char>, from: int) -> int
    decreases members.len() - from,
{
    if from < 0 || from >= members.len() {
        members.len() as int
    } else if members[from].0 == name {
        from
    } else {
        member_index(members, name, from + 1)
    }
}

/// The member that an object holds under a name. A document that is no
/// object holds none.
pub open spec fn member_of(doc: JsonModel, name: Seq<char>) -> Option<JsonModel> {
    match doc {
        JsonModel::Object(members) => {
            let k = member_index(members, name, 0);
            if k < members.len() {
                Some(members[k].1)
            } else {
                None
            }
        },
        _ => None,
    }
}

/// The text of a document that is a string.
pub open spec fn text_of(doc: JsonModel) -> Option<Seq<char>> {
    match doc {
        JsonModel::Text(text) => Some(text),
        _ => None,
    }
}

/// The truth value of a document that is `true` or `false`.
pub open spec fn flag_of(doc: JsonModel) -> Option<bool> {
    match doc {
        JsonModel::Bool(flag) => Some(flag),
        _ => None,
    }
}

/// The value of a document that is a number within `i64`.
pub open spec fn integer_of(doc: JsonModel) -> Option<i64> {
    match doc {
        JsonModel::Integer(value) => Some(value),
        _ => None,
    }
}

/// An object with `value` under `name`: in the place of the member of that
/// name where there is one, else behind all members. A document that is no
/// object is itself.
pub open spec fn with_member(doc: JsonModel, name: Seq<char>, value: JsonModel) -> JsonModel {
    match doc {
        JsonModel::Object(members) => {
            let k = member_index(members, name, 0);
            if k < members.len() {
                JsonModel::Object(members.update(k, (name, value)))
            } else {
                JsonModel::Object(members.push((name, value)))
            }
        },
        _ => doc,
    }
}

/// An object without members.
pub open spec fn empty_object() -> JsonModel {
    JsonModel::Object(Seq::empty())
}

proof fn lemma_member_index(members: Seq<(Seq<char>, JsonModel)>, name: Seq<char>, from: int)
    requires
        0 <= from <= members.len(),
    ensures
        from <= member_index(members, name, from) <= members.len(),
        member_index(members, name, from) < members.len() ==> members[member_index(
            members,
            name,
            from,
        )].0 == name,
        forall|i: int| from <= i < member_index(members, name, from) ==> members[i].0 != name,
    decreases members.len() - from,
{
    if from < members.len() && members[from].0 != name {
        lemma_member_index(members, name, from + 1);
    }
}

proof fn lemma_member_index_first(
    members: Seq<(Seq<char>, JsonModel)>,
    name: Seq<char>,
    from: int,
    k: int,
)
    requires
        0 <= from <= k <= members.len(),
        forall|i: int| from <= i < k ==> members[i].0 != name,
        k < members.len() ==> members[k].0 == name,
    ensures
        member_index(members, name, from) == k,
    decreases k - from,
{
    if from < k {
        lemma_member_index_first(members, name, from + 1, k);
    }
}

/// An object holds under a name what was put there, and under every other
/// name what it held before.
pub proof fn lemma_with_member(doc: JsonModel, name: Seq<char>, value: JsonModel, other: Seq<char>)
    requires
        doc is Object,
    ensures
        with_member(doc, name, value) is Object,
        member_of(with_member(doc, name, value), name) == Some(value),
        other != name ==> member_of(with_member(doc, name, value), other) == member_of(doc, other),
{
    let members = doc->Object_0;
    let k = member_index(members, name, 0);
    lemma_member_index(members, name, 0);
    let after = with_member(doc, name, value)->Object_0;
    lemma_member_index_first(after, name, 0, k);
    if other != name {
        let j = member_index(members, other, 0);
        lemma_member_index(members, other, 0);
        if j < members.len() {
            assert(j != k);
            lemma_member_index_first(after, other, 0, j);
        } else {
            lemma_member_index_first(after, other, 0, after.len() as int);
        }
    }
}

impl JsonDoc {
    /// Whether the document is an object.
    pub fn is_object(&self) -> (out: bool)
        ensures
            out == (self@ is Object),
    {
        match self {
            JsonDoc::Object(_) => true,
            _ => false,
        }
    }

    /// The text of a string.
    pub fn as_text(&self) -> (out: Option<&str>)
        ensures
            match out {
                Some(text) => text_of(self@) == Some(text@),
                None => text_of(self@) is None,
            },
    {
        match self {
            JsonDoc::Text(text) => Some(text.as_str()),
            _ => None,
        }
    }

    /// The truth value of `true` or `false`.
    pub fn as_flag(&self) -> (out: Option<bool>)
        ensures
            out == flag_of(self@),
    {
        match self {
            JsonDoc::Bool(flag) => Some(*flag),
            _ => None,
        }
    }

    /// The value of a number within `i64`.
    pub fn as_integer(&self) -> (out: Option<i64>)
        ensures
            out == integer_of(self@),
    {
        match self {
            JsonDoc::Integer(value) => Some(*value),
            _ => None,
        }
    }

    /// The member of an object under a name.
    pub fn member(&self, name: &str) -> (out: Option<&JsonDoc>)
        ensures
            match out {
                Some(found) => member_of(self@, name@) == Some(found@),
                None => member_of(self@, name@) is None,
            },
    {
        match self {
            JsonDoc::Object(members) => {
                let ghost view = members_view(members@);
                proof {
                    lemma_object_view(*members);
                }
                let mut i: usize = 0;
                while i < members.len()
                    invariant
                        i <= members.len(),
                        self@ == JsonModel::Object(view),
                        view == members_view(members@),
                        forall|k: int| 0 <= k < i ==> view[k].0 != name@,
                    decreases members.len() - i,
                {
                    if str_eq(members[i].0.as_str(), name) {
                        proof {
                            lemma_member_index_first(view, name@, 0, i as int);
                        }
                        return Some(&members[i].1);
                    }
                    i += 1;
                }
                proof {
                    lemma_member_index_first(view, name@, 0, view.len() as int);
                }
                None
            },
            _ => None,
        }
    }

    /// The object with `value` under `name`.
    pub fn with(self, name: &str, value: JsonDoc) -> (out: JsonDoc)
        ensures
            out@ == with_member(self@, name@, value@),
    {
        let ghost whole = self@;
        match self {
            JsonDoc::Object(members) => {
                let ghost view = members_view(members@);
                proof {
                    lemma_object_view(members);
                }
                let mut members = members;
                let mut i: usize = 0;
                while i < members.len()
                    invariant
                        i <= members.len(),
                        whole == self@,
                        whole == JsonModel::Object(view),
                        view == members_view(members@),
                        forall|k: int| 0 <= k < i ==> view[k].0 != name@,
                    decreases members.len() - i,
                {
                    if str_eq(members[i].0.as_str(), name) {
                        proof {
                            lemma_member_index_first(view, name@, 0, i as int);
                        }
                        let ghost put = value@;
                        members.set(i, (name.to_string(), value));
                        proof {
                            lemma_object_view(members);
                            assert(members_view(members@) =~= view.update(i as int, (name@, put)));
                            assert(member_index(view, name@, 0) == i);
                            assert(with_member(whole, name@, put) == JsonModel::Object(
                                view.update(i as int, (name@, put)),
                            ));
                        }
                        return JsonDoc::Object(members);
                    }
                    i += 1;
                }
                proof {
                    lemma_member_index_first(view, name@, 0, view.len() as int);
                }
                members.push((name.to_string(), value));
                proof {
                    lemma_object_view(members);
                    assert(members_view(members@) =~= view.push((name@, value@)));
                }
                JsonDoc::Object(members)
            },
            other => other,
        }
    }

    /// An object without members.
    pub fn object() -> (out: JsonDoc)
        ensures
            out@ == empty_object(),
    {
        let members: Vec<(String, JsonDoc)> = Vec::new();
        proof {
            lemma_object_view(members);
            assert(members_view(members@) =~= Seq::empty());
        }
        JsonDoc::Object(members)
    }

    /// The document that is the given text.
    pub fn text(text: &str) -> (out: JsonDoc)
        ensures
            out@ == JsonModel::Text(text@),
    {
        JsonDoc::Text(text.to_string())
    }

    /// A copy of the document.
    pub fn copy(&self) -> (out: JsonDoc)
        ensures
            out@ == self@,
        decreases self,
    {
        match self {
            JsonDoc::Null => JsonDoc::Null,
            JsonDoc::Bool(flag) => JsonDoc::Bool(*flag),
            JsonDoc::Integer(value) => JsonDoc::Integer(*value),
            JsonDoc::Unsigned(value) => JsonDoc::Unsigned(*value),
            JsonDoc::Fraction(text) => JsonDoc::Fraction(text.clone()),
            JsonDoc::Text(text) => JsonDoc::Text(text.clone()),
            JsonDoc::Array(items) => {
                let mut out: Vec<JsonDoc> = Vec::new();
                let mut i: usize = 0;
                while i < items.len()
                    invariant
                        *self == JsonDoc::Array(*items),
                        i <= items.len(),
                        out@.len() == i,
                        forall|k: int| 0 <= k < i ==> out@[k]@ == items@[k]@,
                    decreases items.len() - i,
                {
                    assert(decreases_to!(*self => self->Array_0));
                    assert(decreases_to!(self->Array_0 => self->Array_0@));
                    assert(decreases_to!(self->Array_0@ => self->Array_0@[i as int]));
                    assert(decreases_to!(*self => items@[i as int]));
                    out.push(items[i].copy());
                    i += 1;
                }
                proof {
                    lemma_array_view(out);
                    lemma_array_view(*items);
                    assert(items_view(out@) =~= items_view(items@));
                }
                JsonDoc::Array(out)
            },
            JsonDoc::Object(members) => {
                let mut out: Vec<(String, JsonDoc)> = Vec::new();
                let mut i: usize = 0;
                while i < members.len()
                    invariant
                        *self == JsonDoc::Object(*members),
                        i <= members.len(),
                        out@.len() == i,
                        forall|k: int|
                            0 <= k < i ==> out@[k].0@ == members@[k].0@ && out@[k].1@
                                == members@[k].1@,
                    decreases members.len() - i,
                {
                    assert(decreases_to!(*self => self->Object_0));
                    assert(decreases_to!(self->Object_0 => self->Object_0@));
                    assert(decreases_to!(self->Object_0@ => self->Object_0@[i as int]));
                    assert(decreases_to!(self->Object_0@[i as int] => self->Object_0@[i as int].1));
                    assert(decreases_to!(*self => members@[i as int].1));
                    out.push((members[i].0.clone(), members[i].1.copy()));
                    i += 1;
                }
                proof {
                    lemma_object_view(out);
                    lemma_object_view(*members);
                    assert(members_view(out@) =~= members_view(members@));
                }
                JsonDoc::Object(out)
            },
        }
    }
}

#[verifier::external_type_specification]
#[verifier::external_body]
pub struct ExJsonValue(serde_json::Value);

#[verifier::external_type_specification]
#[verifier::external_body]
pub struct ExJsonNumber(serde_json::Number);

/// What the bytes parse to, if they are JSON.
pub uninterp spec fn json_decoded(bytes: Seq<u8>) -> Option<JsonModel>;

/// The bytes that a document is written as, if it can be written. A
/// document that holds a number text that is no number cannot.
pub uninterp spec fn json_encoded(doc: JsonModel) -> Option<Seq<u8>>;

/// `Number::as_i64` and `Number::as_u64` tell the three forms of a
/// `serde_json` number apart; one that is neither integer is held as the text
/// that `Number` prints.
#[verifier::external_body]
fn doc_from_number(number: &serde_json::Number) -> JsonDoc {
    match (number.as_i64(), number.as_u64()) {
        (Some(value), _) => JsonDoc::Integer(value),
        (None, Some(value)) => JsonDoc::Unsigned(value),
        (None, None) => JsonDoc::Fraction(number.to_string()),
    }
}

/// Turns a `serde_json::Value` into a document, variant by variant.
#[verifier::external_body]
fn doc_from_value(value: Value) -> JsonDoc {
    match value {
        Value::Null => JsonDoc::Null,
        Value::Bool(flag) => JsonDoc::Bool(flag),
        Value::Number(number) => doc_from_number(&number),
        Value::String(text) => JsonDoc::Text(text),
        Value::Array(items) => {
            JsonDoc::Array(items.into_iter().map(doc_from_value).collect())
        },
        Value::Object(members) => {
            JsonDoc::Object(members.into_iter().map(|(k, v)| (k, doc_from_value(v))).collect())
        },
    }
}

/// `Number::from_str`: the number that a text stands for, and nothing where
/// the text is no JSON number.
#[verifier::external_body]
fn number_from_text(text: &str) -> Option<serde_json::Number> {
    text.parse::<serde_json::Number>().ok()
}

/// Turns a document into a `serde_json::Value`, variant by variant. There
/// is no value for a document that holds, at any depth, a number text that is
/// no number.
#[verifier::external_body]
fn value_from_doc(doc: &JsonDoc) -> Option<Value> {
    Some(match doc {
        JsonDoc::Null => Value::Null,
        JsonDoc::Bool(flag) => Value::Bool(*flag),
        JsonDoc::Integer(value) => Value::from(*value),
        JsonDoc::Unsigned(value) => Value::from(*value),
        JsonDoc::Fraction(text) => Value::Number(number_from_text(text)?),
        JsonDoc::Text(text) => Value::String(text.clone()),
        JsonDoc::Array(items) => Value::Array(
            items.iter().map(value_from_doc).collect::<Option<_>>()?,
        ),
        JsonDoc::Object(members) => Value::Object(
            members.iter().map(|(k, v)| Some((k.clone(), value_from_doc(v)?))).collect::<Option<_>>()?,
        ),
    })
}

/// `serde_json::from_slice` for a `Value`: the document that the bytes
/// parse to, and nothing where they are not JSON.
#[verifier::external_body]
fn parse_json(bytes: &[u8]) -> (out: Option<JsonDoc>)
    ensures
        match out {
            Some(doc) => json_decoded(bytes@) == Some(doc@),
            None => json_decoded(bytes@) is None,
        },
{
    serde_json::from_slice::<serde_json::Value>(bytes).ok().map(doc_from_value)
}

/// `serde_json::to_vec` of a `Value`: the bytes that the document is written
/// as, and nothing where the document has no value or writing fails.
#[verifier::external_body]
fn write_json(doc: &JsonDoc) -> (out: Option<Vec<u8>>)
    ensures
        match out {
            Some(bytes) => json_encoded(doc@) == Some(bytes@),
            None => json_encoded(doc@) is None,
        },
{
    serde_json::to_vec(&value_from_doc(doc)?).ok()
}

/// Parses bytes as a JSON document.
pub fn parse_document(bytes: &[u8]) -> (out: Option<JsonDoc>)
    ensures
        match out {
            Some(doc) => json_decoded(bytes@) == Some(doc@),
            None => json_decoded(bytes@) is None,
        },
{
    parse_json(bytes)
}

/// Writes a document as bytes; a document that holds a number text that is
/// no number is not written.
pub fn encode_document(doc: &JsonDoc) -> (out: Option<Vec<u8>>)
    ensures
        match out {
            Some(bytes) => json_encoded(doc@) == Some(bytes@),
            None => json_encoded(doc@) is None,
        },
{
    write_json(doc)
}

} // verus!
