//! JSON documents as the library sees them: a tree of plain values and its
//! mathematical model. Reading a document from a text and writing one out is
//! the work of `serde_json`.

use serde_json::Value;
use vstd::prelude::*;

verus! {

/// `serde_json::Number`, carried as it is: nothing is known here of what
/// one holds.
#[verifier::external_type_specification]
#[verifier::external_body]
pub struct ExNumber(serde_json::Number);

/// `serde_json::Number` derives `Clone` from an enum of `Copy` scalars, so a
/// clone is the number it was made from.
pub assume_specification[ <serde_json::Number as Clone>::clone ](
    n: &serde_json::Number,
) -> (res: serde_json::Number)
    ensures
        res == *n,
;

/// `serde_json::Value`, which is read and built only through the functions
/// below.
#[verifier::external_type_specification]
#[verifier::external_body]
pub struct ExValue(Value);

/// A JSON number. Integers are held as plain values; a number written with a
/// fraction or an exponent is carried as `serde_json` holds it.
#[derive(Clone, Debug, PartialEq)]
pub enum JsonNumber {
    /// An integer that is not negative.
    PosInt(u64),
    /// A negative integer.
    NegInt(i64),
    /// A number that is not an integer.
    Real(serde_json::Number),
}

/// The integer that a number is, if it is one.
pub open spec fn int_value(n: JsonNumber) -> Option<int> {
    match n {
        JsonNumber::PosInt(u) => Some(u as int),
        JsonNumber::NegInt(i) => Some(i as int),
        JsonNumber::Real(_) => None,
    }
}

/// The number that an integer is.
pub open spec fn int_number(i: int) -> JsonNumber {
    if i >= 0 {
        JsonNumber::PosInt(i as u64)
    } else {
        JsonNumber::NegInt(i as i64)
    }
}

impl JsonNumber {
    /// The number kept within bounds, as far as it is an integer: an integer
    /// below `low` becomes `low`, one above `high` becomes `high`. A number
    /// that is not an integer stays as it is.
    pub open spec fn clamped(self, low: int, high: int) -> JsonNumber {
        match int_value(self) {
            Some(i) => if i < low {
                int_number(low)
            } else if i > high {
                int_number(high)
            } else {
                self
            },
            None => self,
        }
    }

    /// The number of an integer.
    pub fn from_int(i: i64) -> (r: JsonNumber)
        ensures
            r == int_number(i as int),
    {
        if i >= 0 {
            JsonNumber::PosInt(i as u64)
        } else {
            JsonNumber::NegInt(i)
        }
    }

    /// Keeps an integer within bounds; see [`JsonNumber::clamped`].
    pub fn clamp(self, low: i64, high: i64) -> (r: JsonNumber)
        ensures
            r == self.clamped(low as int, high as int),
    {
        match self {
            JsonNumber::PosInt(u) => if low > 0 && u < low as u64 {
                JsonNumber::from_int(low)
            } else if high < 0 || u > high as u64 {
                JsonNumber::from_int(high)
            } else {
                JsonNumber::PosInt(u)
            },
            JsonNumber::NegInt(i) => if i < low {
                JsonNumber::from_int(low)
            } else if i > high {
                JsonNumber::from_int(high)
            } else {
                JsonNumber::NegInt(i)
            },
            JsonNumber::Real(n) => JsonNumber::Real(n),
        }
    }

    /// A number like this one.
    pub fn copy(&self) -> (r: JsonNumber)
        ensures
            r == *self,
    {
        match self {
            JsonNumber::PosInt(u) => JsonNumber::PosInt(*u),
            JsonNumber::NegInt(i) => JsonNumber::NegInt(*i),
            JsonNumber::Real(n) => JsonNumber::Real(n.clone()),
        }
    }
}

/// A JSON document.
#[derive(Debug, PartialEq)]
pub enum Json {
    Null,
    Bool(bool),
    Number(JsonNumber),
    String(String),
    Array(Vec<Json>),
    /// The members in the order in which they were written. Where a name
    /// occurs twice, the later member is the one that counts.
    Object(Vec<(String, Json)>),
}

/// The mathematical model of a [`Json`] document.
pub enum JsonView {
    Null,
    Bool(bool),
    Number(JsonNumber),
    String(Seq<char>),
    Array(Seq<JsonView>),
    Object(Seq<(Seq<char>, JsonView)>),
}

/// The members of an object: names and values, in the order in which they
/// were written.
pub type Members = Seq<(Seq<char>, JsonView)>;

pub open spec fn json_view(j: Json) -> JsonView
    decreases j,
{
    match j {
        Json::Null => JsonView::Null,
        Json::Bool(b) => JsonView::Bool(b),
        Json::Number(n) => JsonView::Number(n),
        Json::String(s) => JsonView::String(s@),
        Json::Array(items) => JsonView::Array(
            Seq::new(
                items@.len(),
                |i: int|
                    if 0 <= i < items@.len() {
                        json_view(items@[i])
                    } else {
                        JsonView::Null
                    },
            ),
        ),
        Json::Object(members) => JsonView::Object(
            Seq::new(
                members@.len(),
                |i: int|
                    if 0 <= i < members@.len() {
                        (members@[i].0@, json_view(members@[i].1))
                    } else {
                        (Seq::empty(), JsonView::Null)
                    },
            ),
        ),
    }
}

/// The model of the members of an object under construction.
pub open spec fn members_view(members: Seq<(String, Json)>) -> Members {
    Seq::new(members.len(), |i: int| (members[i].0@, json_view(members[i].1)))
}

/// The model of the items of an array under construction.
pub open spec fn items_view(items: Seq<Json>) -> Seq<JsonView> {
    Seq::new(items.len(), |i: int| json_view(items[i]))
}

impl DeepView for JsonNumber {
    type V = JsonNumber;

    open spec fn deep_view(&self) -> JsonNumber {
        *self
    }
}

impl DeepView for Json {
    type V = JsonView;

    open spec fn deep_view(&self) -> JsonView {
        json_view(*self)
    }
}

pub proof fn lemma_members_empty(members: Vec<(String, Json)>)
    requires
        members@.len() == 0,
    ensures
        members_view(members@) == Members::empty(),
{
    assert(members_view(members@) =~= Members::empty());
}

pub proof fn lemma_object_view(members: Vec<(String, Json)>)
    ensures
        json_view(Json::Object(members)) == JsonView::Object(members_view(members@)),
{
    assert(json_view(Json::Object(members))->Object_0 =~= members_view(members@));
}

pub proof fn lemma_array_view(items: Vec<Json>)
    ensures
        json_view(Json::Array(items)) == JsonView::Array(items_view(items@)),
{
    assert(json_view(Json::Array(items))->Array_0 =~= items_view(items@));
}

/// What an object's members give to `key`: the value of the last member of
/// that name, or nothing.
pub open spec fn member(members: Members, key: Seq<char>) -> Option<JsonView>
    decreases members.len(),
{
    if members.len() == 0 {
        None
    } else if members.last().0 == key {
        Some(members.last().1)
    } else {
        member(members.drop_last(), key)
    }
}

pub broadcast proof fn lemma_member_push(
    members: Members,
    name: Seq<char>,
    value: JsonView,
    key: Seq<char>,
)
    ensures
        #[trigger] member(members.push((name, value)), key) == if name == key {
            Some(value)
        } else {
            member(members, key)
        },
{
    let pushed = members.push((name, value));
    assert(pushed.last() == (name, value));
    assert(pushed.drop_last() =~= members);
}

pub broadcast proof fn lemma_member_empty(key: Seq<char>)
    ensures
        #[trigger] member(Members::empty(), key) is None,
{
}

/// The document that `serde_json` reads from a text, where the text is one
/// JSON value and nothing else.
pub uninterp spec fn json_parse(text: Seq<char>) -> Option<JsonView>;

/// The text that `serde_json` writes for a document, without white space.
pub uninterp spec fn json_text(doc: JsonView) -> Seq<char>;

/// The document that a `serde_json::Value` holds, the members of each object
/// in the order of its map.
pub uninterp spec fn value_view(value: Value) -> JsonView;

/// `serde_json::from_str` at `Value`: the value that the text holds, or
/// nothing where the text is not one JSON value. The result is a function of
/// the text alone.
#[verifier::external_body]
fn parse_value(text: &str) -> (r: Option<Value>)
    ensures
        match r {
            Some(v) => json_parse(text@) == Some(value_view(v)),
            None => json_parse(text@) is None,
        },
{
    serde_json::from_str::<Value>(text).ok()
}

/// The variants of `Value` that hold no other value, copied: an integer
/// number becomes `PosInt` or `NegInt` as `Number::as_u64` and
/// `Number::as_i64` tell, any other number is kept as it is. An array or
/// an object gives nothing.
#[verifier::external_body]
fn scalar_of(value: &Value) -> (r: Option<Json>)
    ensures
        match r {
            Some(doc) => doc.deep_view() == value_view(*value),
            None => value_view(*value) is Array || value_view(*value) is Object,
        },
{
    match value {
        Value::Null => Some(Json::Null),
        Value::Bool(b) => Some(Json::Bool(*b)),
        Value::Number(n) => Some(Json::Number(match (n.as_u64(), n.as_i64()) {
            (Some(u), _) => JsonNumber::PosInt(u),
            (_, Some(i)) => JsonNumber::NegInt(i),
            _ => JsonNumber::Real(n.clone()),
        })),
        Value::String(s) => Some(Json::String(s.clone())),
        _ => None,
    }
}

/// `Value::as_array`: the items of an array, and nothing for any other
/// value.
#[verifier::external_body]
fn items_of(value: &Value) -> (r: Option<&Vec<Value>>)
    ensures
        match r {
            Some(items) => value_view(*value) == JsonView::Array(
                Seq::new(items@.len(), |i: int| value_view(items@[i])),
            ),
            None => !(value_view(*value) is Array),
        },
{
    value.as_array()
}

/// `Value::as_object` and `Map::iter`: the members of an object in the
/// order of its map, and none for any other value.
#[verifier::external_body]
fn members_of(value: &Value) -> (r: Vec<(&String, &Value)>)
    ensures
        value_view(*value) is Object ==> value_view(*value) == JsonView::Object(
            Seq::new(r@.len(), |i: int| (r@[i].0@, value_view(*r@[i].1))),
        ),
{
    match value.as_object() {
        Some(map) => map.iter().collect(),
        None => Vec::new(),
    }
}

/// The `Value` of a document that holds no other document; an array or an
/// object gives nothing. An integer goes through `Number::from`, any other
/// number is taken as it is.
#[verifier::external_body]
fn scalar_value(doc: &Json) -> (r: Option<Value>)
    ensures
        match r {
            Some(value) => json_text(value_view(value)) == json_text(doc.deep_view()),
            None => *doc is Array || *doc is Object,
        },
{
    match doc {
        Json::Null => Some(Value::Null),
        Json::Bool(b) => Some(Value::Bool(*b)),
        Json::Number(JsonNumber::PosInt(u)) => Some(Value::Number((*u).into())),
        Json::Number(JsonNumber::NegInt(i)) => Some(Value::Number((*i).into())),
        Json::Number(JsonNumber::Real(n)) => Some(Value::Number(n.clone())),
        Json::String(s) => Some(Value::String(s.clone())),
        _ => None,
    }
}

/// `Value::Array`. What `serde_json` writes for an array is made of what it
/// writes for the items: an array of documents that are written as the
/// items are is written as this value is.
#[verifier::external_body]
fn array_value(items: Vec<Value>) -> (r: Value)
    ensures
        forall|docs: Seq<JsonView>|
            docs.len() == items@.len() && (forall|i: int|
                0 <= i < docs.len() ==> json_text(value_view(items@[i])) == json_text(docs[i]))
                ==> #[trigger] json_text(JsonView::Array(docs)) == json_text(value_view(r)),
{
    Value::Array(items)
}

/// `Value::Object` of the map collected from the members, which keeps one
/// member for each name, the last one written. What `serde_json` writes
/// for an object is made of the names and of what it writes for the
/// values: an object of the same names, whose values are written as these
/// are, is written as this value is.
#[verifier::external_body]
fn object_value(members: Vec<(String, Value)>) -> (r: Value)
    ensures
        forall|docs: Members|
            docs.len() == members@.len() && (forall|i: int|
                0 <= i < docs.len() ==> docs[i].0 == members@[i].0@ && json_text(
                    value_view(members@[i].1),
                ) == json_text(docs[i].1)) ==> #[trigger] json_text(JsonView::Object(docs))
                == json_text(value_view(r)),
{
    Value::Object(members.into_iter().collect())
}

/// `serde_json::to_string` at `Value`: the value as compact JSON. It has
/// nothing to fail on, since the names of a `Value` are strings and its
/// numbers are finite.
#[verifier::external_body]
fn value_text(value: &Value) -> (text: String)
    ensures
        text@ == json_text(value_view(*value)),
{
    serde_json::to_string(value).unwrap_or_default()
}

/// Copies a `serde_json::Value` into a document.
fn value_to_json(value: &Value) -> (doc: Json)
    ensures
        doc.deep_view() == value_view(*value),
    decreases value_view(*value),
{
    match scalar_of(value) {
        Some(doc) => doc,
        None => match items_of(value) {
            Some(items) => {
                let ghost views = Seq::new(items@.len(), |k: int| value_view(items@[k]));
                let mut docs: Vec<Json> = Vec::new();
                let mut i: usize = 0;
                while i < items.len()
                    invariant
                        i <= items.len(),
                        docs@.len() == i,
                        views == Seq::new(items@.len(), |k: int| value_view(items@[k])),
                        value_view(*value) == JsonView::Array(views),
                        forall|k: int| 0 <= k < i ==> json_view(#[trigger] docs@[k]) == views[k],
                    decreases items.len() - i,
                {
                    proof {
                        let whole = value_view(*value);
                        assert(whole->Array_0[i as int] == value_view(items@[i as int]));
                        assert(decreases_to!(whole => whole->Array_0));
                        assert(decreases_to!(whole->Array_0 => whole->Array_0[i as int]));
                    }
                    let doc = value_to_json(&items[i]);
                    docs.push(doc);
                    i = i + 1;
                }
                proof {
                    lemma_array_view(docs);
                    assert(items_view(docs@) =~= views);
                }
                Json::Array(docs)
            },
            None => {
                let members = members_of(value);
                let ghost views = Seq::new(
                    members@.len(),
                    |k: int| (members@[k].0@, value_view(*members@[k].1)),
                );
                let mut docs: Vec<(String, Json)> = Vec::new();
                let mut i: usize = 0;
                while i < members.len()
                    invariant
                        i <= members.len(),
                        docs@.len() == i,
                        views == Seq::new(
                            members@.len(),
                            |k: int| (members@[k].0@, value_view(*members@[k].1)),
                        ),
                        value_view(*value) == JsonView::Object(views),
                        forall|k: int|
                            0 <= k < i ==> (#[trigger] docs@[k]).0@ == views[k].0 && json_view(
                                docs@[k].1,
                            ) == views[k].1,
                    decreases members.len() - i,
                {
                    proof {
                        let whole = value_view(*value);
                        let member = whole->Object_0[i as int];
                        assert(member.1 == value_view(*members@[i as int].1));
                        assert(decreases_to!(whole => whole->Object_0));
                        assert(decreases_to!(whole->Object_0 => whole->Object_0[i as int]));
                        assert(decreases_to!(member => member.1));
                    }
                    let name = members[i].0.clone();
                    let doc = value_to_json(members[i].1);
                    docs.push((name, doc));
                    i = i + 1;
                }
                proof {
                    lemma_object_view(docs);
                    assert(members_view(docs@) =~= views);
                }
                Json::Object(docs)
            },
        },
    }
}

/// Copies a document into a `serde_json::Value` that is written as the
/// document is.
fn json_to_value(doc: &Json) -> (value: Value)
    ensures
        json_text(value_view(value)) == json_text(doc.deep_view()),
    decreases *doc,
{
    match scalar_value(doc) {
        Some(value) => value,
        None => match doc {
            Json::Array(items) => {
                let mut values: Vec<Value> = Vec::new();
                let mut i: usize = 0;
                while i < items.len()
                    invariant
                        i <= items.len(),
                        values@.len() == i,
                        *doc == Json::Array(*items),
                        forall|k: int|
                            0 <= k < i ==> json_text(value_view(#[trigger] values@[k]))
                                == json_text(json_view(items@[k])),
                    decreases items.len() - i,
                {
                    proof {
                        assert(decreases_to!(*doc => doc->Array_0));
                        assert(decreases_to!(doc->Array_0 => doc->Array_0@));
                        assert(decreases_to!(doc->Array_0@ => doc->Array_0@[i as int]));
                    }
                    let value = json_to_value(&items[i]);
                    values.push(value);
                    i = i + 1;
                }
                proof {
                    lemma_array_view(*items);
                }
                let ghost docs = items_view(items@);
                let ghost made = values@;
                let value = array_value(values);
                assert(json_text(JsonView::Array(docs)) == json_text(value_view(value))) by {
                    assert forall|k: int| 0 <= k < docs.len() implies json_text(
                        value_view(made[k]),
                    ) == json_text(docs[k]) by {}
                }
                value
            },
            Json::Object(members) => {
                let mut values: Vec<(String, Value)> = Vec::new();
                let mut i: usize = 0;
                while i < members.len()
                    invariant
                        i <= members.len(),
                        values@.len() == i,
                        *doc == Json::Object(*members),
                        forall|k: int|
                            0 <= k < i ==> (#[trigger] values@[k]).0@ == members@[k].0@
                                && json_text(value_view(values@[k].1)) == json_text(
                                json_view(members@[k].1),
                            ),
                    decreases members.len() - i,
                {
                    proof {
                        let member = doc->Object_0@[i as int];
                        assert(decreases_to!(*doc => doc->Object_0));
                        assert(decreases_to!(doc->Object_0 => doc->Object_0@));
                        assert(decreases_to!(doc->Object_0@ => doc->Object_0@[i as int]));
                        assert(decreases_to!(member => member.1));
                    }
                    let name = members[i].0.clone();
                    let value = json_to_value(&members[i].1);
                    values.push((name, value));
                    i = i + 1;
                }
                proof {
                    lemma_object_view(*members);
                }
                let ghost docs = members_view(members@);
                let ghost made = values@;
                let value = object_value(values);
                assert(json_text(JsonView::Object(docs)) == json_text(value_view(value))) by {
                    assert forall|k: int| 0 <= k < docs.len() implies docs[k].0 == made[k].0@
                        && json_text(value_view(made[k].1)) == json_text(docs[k].1) by {}
                }
                value
            },
            _ => vstd::pervasive::unreached(),
        },
    }
}

impl Clone for Json {
    /// A document like this one.
    fn clone(&self) -> (r: Self)
        ensures
            r.deep_view() == self.deep_view(),
        decreases *self,
    {
        match self {
            Json::Null => Json::Null,
            Json::Bool(b) => Json::Bool(*b),
            Json::Number(n) => Json::Number(n.copy()),
            Json::String(s) => Json::String(s.clone()),
            Json::Array(items) => {
                let mut copies: Vec<Json> = Vec::new();
                let mut i: usize = 0;
                while i < items.len()
                    invariant
                        i <= items.len(),
                        copies@.len() == i,
                        *self == Json::Array(*items),
                        forall|k: int|
                            0 <= k < i ==> json_view(#[trigger] copies@[k]) == json_view(items@[k]),
                    decreases items.len() - i,
                {
                    proof {
                        assert(decreases_to!(*self => self->Array_0));
                        assert(decreases_to!(self->Array_0 => self->Array_0@));
                        assert(decreases_to!(self->Array_0@ => self->Array_0@[i as int]));
                    }
                    let copy = items[i].clone();
                    copies.push(copy);
                    i = i + 1;
                }
                proof {
                    lemma_array_view(copies);
                    lemma_array_view(*items);
                    assert(items_view(copies@) =~= items_view(items@));
                }
                Json::Array(copies)
            },
            Json::Object(members) => {
                let mut copies: Vec<(String, Json)> = Vec::new();
                let mut i: usize = 0;
                while i < members.len()
                    invariant
                        i <= members.len(),
                        copies@.len() == i,
                        *self == Json::Object(*members),
                        forall|k: int|
                            0 <= k < i ==> (#[trigger] copies@[k]).0@ == members@[k].0@
                                && json_view(copies@[k].1) == json_view(members@[k].1),
                    decreases members.len() - i,
                {
                    proof {
                        let member = self->Object_0@[i as int];
                        assert(decreases_to!(*self => self->Object_0));
                        assert(decreases_to!(self->Object_0 => self->Object_0@));
                        assert(decreases_to!(self->Object_0@ => self->Object_0@[i as int]));
                        assert(decreases_to!(member => member.1));
                    }
                    let name = members[i].0.clone();
                    let copy = members[i].1.clone();
                    copies.push((name, copy));
                    i = i + 1;
                }
                proof {
                    lemma_object_view(copies);
                    lemma_object_view(*members);
                    assert(members_view(copies@) =~= members_view(members@));
                }
                Json::Object(copies)
            },
        }
    }
}

impl Json {
    /// Reads a document from a text.
    pub fn parse(text: &str) -> (r: Option<Json>)
        ensures
            r.deep_view() == json_parse(text@),
    {
        match parse_value(text) {
            Some(value) => Some(value_to_json(&value)),
            None => None,
        }
    }

    /// Writes the document as a text.
    pub fn render(&self) -> (text: String)
        ensures
            text@ == json_text(self.deep_view()),
    {
        let value = json_to_value(self);
        value_text(&value)
    }
}

} // verus!
