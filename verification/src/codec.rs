//! The codec between wire types and JSON documents.

use crate::json::{
    int_number, int_value, items_view, json_view, lemma_array_view, lemma_member_empty,
    lemma_member_push, member, members_view, Json, JsonNumber, JsonView, Members,
};
use crate::text::same_text;
use vstd::prelude::*;

verus! {

/// A type that has a JSON form. `encoded` and `decoded` say over models what
/// the two executable functions compute, and `lemma_round_trip` states that
/// decoding gives back what was encoded.
pub trait JsonCodec: Sized + DeepView {
    /// The document that stands for a value.
    spec fn encoded(v: Self::V) -> JsonView;

    /// The value that a document stands for, if it stands for one.
    spec fn decoded(doc: JsonView) -> Option<Self::V>;

    /// Writes a value as a document.
    fn to_json(&self) -> (doc: Json)
        ensures
            doc.deep_view() == Self::encoded(self.deep_view()),
    ;

    /// Reads a value from a document, where the document stands for one.
    /// Members of an object that the type does not know are passed over.
    fn from_json(doc: &Json) -> (r: Option<Self>)
        ensures
            r.deep_view() == Self::decoded(doc.deep_view()),
    ;

    /// Decoding what was encoded gives the value back, every field of it
    /// unchanged.
    proof fn lemma_round_trip(v: Self::V)
        ensures
            Self::decoded(Self::encoded(v)) == Some(v),
    ;
}

/// The integer that a document is, if it is one.
pub open spec fn int_of(doc: JsonView) -> Option<int> {
    match doc {
        JsonView::Number(n) => int_value(n),
        _ => None,
    }
}

/// The document that stands for an integer.
pub open spec fn int_doc(i: int) -> JsonView {
    JsonView::Number(int_number(i))
}

impl JsonCodec for bool {
    open spec fn encoded(v: bool) -> JsonView {
        JsonView::Bool(v)
    }

    open spec fn decoded(doc: JsonView) -> Option<bool> {
        match doc {
            JsonView::Bool(b) => Some(b),
            _ => None,
        }
    }

    fn to_json(&self) -> (doc: Json) {
        Json::Bool(*self)
    }

    fn from_json(doc: &Json) -> (r: Option<bool>) {
        match doc {
            Json::Bool(b) => Some(*b),
            _ => None,
        }
    }

    proof fn lemma_round_trip(v: bool) {
    }
}

impl JsonCodec for u64 {
    open spec fn encoded(v: u64) -> JsonView {
        int_doc(v as int)
    }

    open spec fn decoded(doc: JsonView) -> Option<u64> {
        match int_of(doc) {
            Some(i) if 0 <= i <= u64::MAX => Some(i as u64),
            _ => None,
        }
    }

    fn to_json(&self) -> (doc: Json) {
        Json::Number(JsonNumber::PosInt(*self))
    }

    fn from_json(doc: &Json) -> (r: Option<u64>) {
        match doc {
            Json::Number(JsonNumber::PosInt(u)) => Some(*u),
            Json::Number(JsonNumber::NegInt(i)) => if *i >= 0 {
                Some(*i as u64)
            } else {
                None
            },
            _ => None,
        }
    }

    proof fn lemma_round_trip(v: u64) {
    }
}

impl JsonCodec for u32 {
    open spec fn encoded(v: u32) -> JsonView {
        int_doc(v as int)
    }

    open spec fn decoded(doc: JsonView) -> Option<u32> {
        match int_of(doc) {
            Some(i) if 0 <= i <= u32::MAX => Some(i as u32),
            _ => None,
        }
    }

    fn to_json(&self) -> (doc: Json) {
        Json::Number(JsonNumber::PosInt(*self as u64))
    }

    fn from_json(doc: &Json) -> (r: Option<u32>) {
        match doc {
            Json::Number(JsonNumber::PosInt(u)) => if *u <= u32::MAX as u64 {
                Some(*u as u32)
            } else {
                None
            },
            Json::Number(JsonNumber::NegInt(i)) => if 0 <= *i && *i <= u32::MAX as i64 {
                Some(*i as u32)
            } else {
                None
            },
            _ => None,
        }
    }

    proof fn lemma_round_trip(v: u32) {
    }
}

impl JsonCodec for u16 {
    open spec fn encoded(v: u16) -> JsonView {
        int_doc(v as int)
    }

    open spec fn decoded(doc: JsonView) -> Option<u16> {
        match int_of(doc) {
            Some(i) if 0 <= i <= u16::MAX => Some(i as u16),
            _ => None,
        }
    }

    fn to_json(&self) -> (doc: Json) {
        Json::Number(JsonNumber::PosInt(*self as u64))
    }

    fn from_json(doc: &Json) -> (r: Option<u16>) {
        match doc {
            Json::Number(JsonNumber::PosInt(u)) => if *u <= u16::MAX as u64 {
                Some(*u as u16)
            } else {
                None
            },
            Json::Number(JsonNumber::NegInt(i)) => if 0 <= *i && *i <= u16::MAX as i64 {
                Some(*i as u16)
            } else {
                None
            },
            _ => None,
        }
    }

    proof fn lemma_round_trip(v: u16) {
    }
}

impl JsonCodec for i64 {
    open spec fn encoded(v: i64) -> JsonView {
        int_doc(v as int)
    }

    open spec fn decoded(doc: JsonView) -> Option<i64> {
        match int_of(doc) {
            Some(i) if i64::MIN <= i <= i64::MAX => Some(i as i64),
            _ => None,
        }
    }

    fn to_json(&self) -> (doc: Json) {
        if *self >= 0 {
            Json::Number(JsonNumber::PosInt(*self as u64))
        } else {
            Json::Number(JsonNumber::NegInt(*self))
        }
    }

    fn from_json(doc: &Json) -> (r: Option<i64>) {
        match doc {
            Json::Number(JsonNumber::PosInt(u)) => if *u <= i64::MAX as u64 {
                Some(*u as i64)
            } else {
                None
            },
            Json::Number(JsonNumber::NegInt(i)) => Some(*i),
            _ => None,
        }
    }

    proof fn lemma_round_trip(v: i64) {
    }
}

impl JsonCodec for i32 {
    open spec fn encoded(v: i32) -> JsonView {
        int_doc(v as int)
    }

    open spec fn decoded(doc: JsonView) -> Option<i32> {
        match int_of(doc) {
            Some(i) if i32::MIN <= i <= i32::MAX => Some(i as i32),
            _ => None,
        }
    }

    fn to_json(&self) -> (doc: Json) {
        if *self >= 0 {
            Json::Number(JsonNumber::PosInt(*self as u64))
        } else {
            Json::Number(JsonNumber::NegInt(*self as i64))
        }
    }

    fn from_json(doc: &Json) -> (r: Option<i32>) {
        match doc {
            Json::Number(JsonNumber::PosInt(u)) => if *u <= i32::MAX as u64 {
                Some(*u as i32)
            } else {
                None
            },
            Json::Number(JsonNumber::NegInt(i)) => if i32::MIN as i64 <= *i && *i
                <= i32::MAX as i64 {
                Some(*i as i32)
            } else {
                None
            },
            _ => None,
        }
    }

    proof fn lemma_round_trip(v: i32) {
    }
}

/// A number of any kind stands for itself: this is the codec of the fields
/// that hold a fraction.
impl JsonCodec for JsonNumber {
    open spec fn encoded(v: JsonNumber) -> JsonView {
        JsonView::Number(v)
    }

    open spec fn decoded(doc: JsonView) -> Option<JsonNumber> {
        match doc {
            JsonView::Number(n) => Some(n),
            _ => None,
        }
    }

    fn to_json(&self) -> (doc: Json) {
        Json::Number(self.copy())
    }

    fn from_json(doc: &Json) -> (r: Option<JsonNumber>) {
        match doc {
            Json::Number(n) => Some(n.copy()),
            _ => None,
        }
    }

    proof fn lemma_round_trip(v: JsonNumber) {
    }
}


impl JsonCodec for String {
    open spec fn encoded(v: Seq<char>) -> JsonView {
        JsonView::String(v)
    }

    open spec fn decoded(doc: JsonView) -> Option<Seq<char>> {
        match doc {
            JsonView::String(s) => Some(s),
            _ => None,
        }
    }

    fn to_json(&self) -> (doc: Json) {
        Json::String(self.clone())
    }

    fn from_json(doc: &Json) -> (r: Option<String>) {
        match doc {
            Json::String(s) => Some(s.clone()),
            _ => None,
        }
    }

    proof fn lemma_round_trip(v: Seq<char>) {
    }
}

impl<T: JsonCodec> JsonCodec for Vec<T> {
    open spec fn encoded(v: Seq<T::V>) -> JsonView {
        JsonView::Array(Seq::new(v.len(), |i: int| T::encoded(v[i])))
    }

    open spec fn decoded(doc: JsonView) -> Option<Seq<T::V>> {
        match doc {
            JsonView::Array(items) => if forall|i: int|
                0 <= i < items.len() ==> (#[trigger] T::decoded(items[i])) is Some {
                Some(Seq::new(items.len(), |i: int| T::decoded(items[i])->0))
            } else {
                None
            },
            _ => None,
        }
    }

    fn to_json(&self) -> (doc: Json) {
        let mut items: Vec<Json> = Vec::new();
        let mut i: usize = 0;
        while i < self.len()
            invariant
                i <= self.len(),
                items@.len() == i,
                forall|k: int|
                    0 <= k < i ==> json_view(#[trigger] items@[k]) == T::encoded(
                        self@[k].deep_view(),
                    ),
            decreases self.len() - i,
        {
            let item = self[i].to_json();
            items.push(item);
            i = i + 1;
        }
        proof {
            lemma_array_view(items);
            assert(items_view(items@) =~= Seq::new(
                self.deep_view().len(),
                |i: int| T::encoded(self.deep_view()[i]),
            ));
        }
        Json::Array(items)
    }

    fn from_json(doc: &Json) -> (r: Option<Vec<T>>) {
        match doc {
            Json::Array(items) => {
                proof {
                    lemma_array_view(*items);
                }
                let mut out: Vec<T> = Vec::new();
                let mut i: usize = 0;
                while i < items.len()
                    invariant
                        i <= items.len(),
                        out@.len() == i,
                        json_view(*doc) == JsonView::Array(items_view(items@)),
                        forall|k: int|
                            0 <= k < i ==> T::decoded(json_view(#[trigger] items@[k])) == Some(
                                out@[k].deep_view(),
                            ),
                    decreases items.len() - i,
                {
                    match T::from_json(&items[i]) {
                        Some(v) => {
                            out.push(v);
                        },
                        None => {
                            assert(T::decoded(items_view(items@)[i as int]) is None);
                            return None;
                        },
                    }
                    i = i + 1;
                }
                proof {
                    let ghost docs = items_view(items@);
                    assert forall|k: int| 0 <= k < docs.len() implies (#[trigger] T::decoded(
                        docs[k],
                    )) is Some by {
                        assert(T::decoded(json_view(items@[k])) is Some);
                    }
                    assert(out.deep_view() =~= Seq::new(
                        docs.len(),
                        |i: int| T::decoded(docs[i])->0,
                    ));
                }
                Some(out)
            },
            _ => None,
        }
    }

    proof fn lemma_round_trip(v: Seq<T::V>) {
        let items = Seq::new(v.len(), |i: int| T::encoded(v[i]));
        assert forall|i: int| 0 <= i < items.len() implies (#[trigger] T::decoded(items[i]))
            == Some(v[i]) by {
            T::lemma_round_trip(v[i]);
        }
        assert(Seq::new(items.len(), |i: int| T::decoded(items[i])->0) =~= v);
    }
}

/// What the member `key` of an object decodes to, where the member must be
/// there.
pub open spec fn required<T: JsonCodec>(members: Members, key: Seq<char>) -> Option<T::V> {
    match member(members, key) {
        Some(doc) => T::decoded(doc),
        None => None,
    }
}

/// What the member `key` of an object decodes to, where the member may be
/// missing or `null`; `None` where it is there and does not decode.
pub open spec fn optional<T: JsonCodec>(members: Members, key: Seq<char>) -> Option<Option<T::V>> {
    match member(members, key) {
        None => Some(None),
        Some(JsonView::Null) => Some(None),
        Some(doc) => match T::decoded(doc) {
            Some(v) => Some(Some(v)),
            None => None,
        },
    }
}

/// The document of a value that may be missing.
pub open spec fn present<T: JsonCodec>(value: Option<T::V>) -> Option<JsonView> {
    match value {
        Some(v) => Some(T::encoded(v)),
        None => None,
    }
}

/// The members with one more, which holds `value`.
#[verifier::opaque]
pub open spec fn with<T: JsonCodec>(
    members: Members,
    key: Seq<char>,
    value: T::V,
) -> Members {
    members.push((key, T::encoded(value)))
}

/// The members with one more where there is a value, and unchanged where
/// there is none.
#[verifier::opaque]
pub open spec fn with_some<T: JsonCodec>(
    members: Members,
    key: Seq<char>,
    value: Option<T::V>,
) -> Members {
    match value {
        Some(v) => members.push((key, T::encoded(v))),
        None => members,
    }
}

/// The members with one more, which is `null` where there is no value.
#[verifier::opaque]
pub open spec fn with_nullable<T: JsonCodec>(
    members: Members,
    key: Seq<char>,
    value: Option<T::V>,
) -> Members {
    match value {
        Some(v) => members.push((key, T::encoded(v))),
        None => members.push((key, JsonView::Null)),
    }
}

pub broadcast proof fn lemma_member_with<T: JsonCodec>(
    members: Members,
    name: Seq<char>,
    value: T::V,
    key: Seq<char>,
)
    ensures
        #[trigger] member(with::<T>(members, name, value), key) == if name == key {
            Some(T::encoded(value))
        } else {
            member(members, key)
        },
{
    reveal(with);
    lemma_member_push(members, name, T::encoded(value), key);
}

pub broadcast proof fn lemma_member_with_some<T: JsonCodec>(
    members: Members,
    name: Seq<char>,
    value: Option<T::V>,
    key: Seq<char>,
)
    ensures
        #[trigger] member(with_some::<T>(members, name, value), key) == if name == key
            && value is Some {
            Some(T::encoded(value->0))
        } else {
            member(members, key)
        },
{
    reveal(with_some);
    if value is Some {
        lemma_member_push(members, name, T::encoded(value->0), key);
    }
}

pub broadcast proof fn lemma_member_with_nullable<T: JsonCodec>(
    members: Members,
    name: Seq<char>,
    value: Option<T::V>,
    key: Seq<char>,
)
    ensures
        #[trigger] member(with_nullable::<T>(members, name, value), key) == if name != key {
            member(members, key)
        } else if value is Some {
            Some(T::encoded(value->0))
        } else {
            Some(JsonView::Null)
        },
{
    reveal(with_nullable);
    if value is Some {
        lemma_member_push(members, name, T::encoded(value->0), key);
    } else {
        lemma_member_push(members, name, JsonView::Null, key);
    }
}

/// What the members of a JSON form give to a name, member by member.
pub broadcast group group_members {
    lemma_member_empty,
    lemma_member_with,
    lemma_member_with_some,
    lemma_member_with_nullable,
}

/// Finds the member that counts for `key`.
pub fn find_member<'a>(members: &'a Vec<(String, Json)>, key: &str) -> (r: Option<&'a Json>)
    ensures
        r.deep_view() == member(members_view(members@), key@),
{
    let ghost all = members_view(members@);
    let mut i: usize = members.len();
    assert(all.subrange(0, i as int) =~= all);
    while i > 0
        invariant
            i <= members.len(),
            all == members_view(members@),
            member(all, key@) == member(all.subrange(0, i as int), key@),
        decreases i,
    {
        let ghost upto = all.subrange(0, i as int);
        assert(upto.last() == all[i - 1]);
        assert(upto.drop_last() =~= all.subrange(0, i - 1));
        i = i - 1;
        if same_text(members[i].0.as_str(), key) {
            return Some(&members[i].1);
        }
    }
    assert(all.subrange(0, 0).len() == 0);
    None
}

pub fn get_required<T: JsonCodec>(members: &Vec<(String, Json)>, key: &str) -> (r: Option<T>)
    ensures
        r.deep_view() == required::<T>(members_view(members@), key@),
{
    match find_member(members, key) {
        Some(doc) => T::from_json(doc),
        None => None,
    }
}

pub fn get_optional<T: JsonCodec>(members: &Vec<(String, Json)>, key: &str) -> (r: Option<
    Option<T>,
>)
    ensures
        r.deep_view() == optional::<T>(members_view(members@), key@),
{
    match find_member(members, key) {
        None => Some(None),
        Some(Json::Null) => Some(None),
        Some(doc) => match T::from_json(doc) {
            Some(v) => Some(Some(v)),
            None => None,
        },
    }
}

pub fn put<T: JsonCodec>(members: &mut Vec<(String, Json)>, key: &str, value: &T)
    ensures
        members_view(final(members)@) == with::<T>(
            members_view(old(members)@),
            key@,
            value.deep_view(),
        ),
{
    reveal(with);
    let doc = value.to_json();
    members.push((key.to_owned(), doc));
    assert(members_view(members@) =~= members_view(old(members)@).push((key@, json_view(doc))));
}

pub fn put_some<T: JsonCodec>(members: &mut Vec<(String, Json)>, key: &str, value: &Option<T>)
    ensures
        members_view(final(members)@) == with_some::<T>(
            members_view(old(members)@),
            key@,
            value.deep_view(),
        ),
{
    reveal(with);
    reveal(with_some);
    match value {
        Some(v) => {
            put(members, key, v);
        },
        None => {},
    }
}

pub fn put_nullable<T: JsonCodec>(members: &mut Vec<(String, Json)>, key: &str, value: &Option<T>)
    ensures
        members_view(final(members)@) == with_nullable::<T>(
            members_view(old(members)@),
            key@,
            value.deep_view(),
        ),
{
    reveal(with);
    reveal(with_nullable);
    match value {
        Some(v) => {
            put(members, key, v);
        },
        None => {
            members.push((key.to_owned(), Json::Null));
            assert(members_view(members@) =~= members_view(old(members)@).push(
                (key@, JsonView::Null),
            ));
        },
    }
}

} // verus!
