//! JSON documents as plain data, with the questions that the protocol layers
//! ask of them. Reading a document from text and printing one is left to
//! `serde_json`; the way between its values and the documents of this module
//! is proved here.

use vstd::prelude::*;
use crate::text::{chars_of, decimal_digits, decimal_text, parse_digits, signed_of, unsigned_of};

verus! {

/// A JSON document.
///
/// A number is held as the text that writes it (`42`, `-7`, `1.5e3`), so that
/// every number a document can hold is carried without loss. The text of a
/// number that is built by hand should follow the JSON grammar: one that does
/// not is printed as `null`.
#[derive(Debug)]
pub enum Json {
    Null,
    Bool(bool),
    Number(String),
    String(String),
    Array(Vec<Json>),
    /// The members in document order.
    Object(Vec<(String, Json)>),
}

/// The mathematical value of a JSON document.
pub enum JsonValue {
    Null,
    Bool(bool),
    Number(Seq<char>),
    String(Seq<char>),
    Array(Seq<JsonValue>),
    Object(Seq<MemberValue>),
}

/// A member of an object: its name and its value.
pub struct MemberValue {
    pub name: Seq<char>,
    pub value: JsonValue,
}

impl View for Json {
    type V = JsonValue;

    open spec fn view(&self) -> JsonValue
        decreases self,
    {
        match self {
            Json::Null => JsonValue::Null,
            Json::Bool(b) => JsonValue::Bool(*b),
            Json::Number(n) => JsonValue::Number(n@),
            Json::String(s) => JsonValue::String(s@),
            Json::Array(items) => JsonValue::Array(
                Seq::new(
                    items@.len(),
                    |i: int|
                        if 0 <= i < items@.len() {
                            items@[i].view()
                        } else {
                            JsonValue::Null
                        },
                ),
            ),
            Json::Object(members) => JsonValue::Object(
                Seq::new(
                    members@.len(),
                    |i: int|
                        if 0 <= i < members@.len() {
                            MemberValue { name: members@[i].0@, value: members@[i].1.view() }
                        } else {
                            MemberValue { name: Seq::empty(), value: JsonValue::Null }
                        },
                ),
            ),
        }
    }
}

/// The values of a sequence of documents.
pub open spec fn items_view(items: Seq<Json>) -> Seq<JsonValue> {
    Seq::new(items.len(), |i: int| items[i]@)
}

/// The names and values of a sequence of members.
pub open spec fn members_view(members: Seq<(String, Json)>) -> Seq<MemberValue> {
    Seq::new(members.len(), |i: int| MemberValue { name: members[i].0@, value: members[i].1@ })
}

/// The value of an array is the sequence of the values of its items.
pub proof fn lemma_array_view(items: Vec<Json>)
    ensures
        Json::Array(items)@ == JsonValue::Array(items_view(items@)),
{
    assert(Json::Array(items)@->Array_0 =~= items_view(items@));
}

/// The value of an object is the sequence of its members' names and values.
pub proof fn lemma_object_view(members: Vec<(String, Json)>)
    ensures
        Json::Object(members)@ == JsonValue::Object(members_view(members@)),
{
    assert(Json::Object(members)@->Object_0 =~= members_view(members@));
}

/// The value of a document that may be absent.
pub open spec fn json_view(doc: Option<&Json>) -> Option<JsonValue> {
    match doc {
        Some(d) => Some(d@),
        None => None,
    }
}

/// The value of the first member called `key`, if there is one.
pub open spec fn find_member(members: Seq<MemberValue>, key: Seq<char>) -> Option<JsonValue>
    decreases members.len(),
{
    if members.len() == 0 {
        None
    } else if members[0].name == key {
        Some(members[0].value)
    } else {
        find_member(members.skip(1), key)
    }
}

impl JsonValue {
    /// The member called `key` of an object; nothing for any other value.
    pub open spec fn member(self, key: Seq<char>) -> Option<JsonValue> {
        match self {
            JsonValue::Object(members) => find_member(members, key),
            _ => None,
        }
    }

    /// The number as an unsigned integer up to `limit`, where the value is a
    /// number written with digits alone.
    pub open spec fn unsigned(self, limit: nat) -> Option<nat> {
        match self {
            JsonValue::Number(text) => unsigned_of(text, limit),
            _ => None,
        }
    }

    /// The number as a signed 64-bit integer, where the value is a number
    /// written with digits alone after an optional minus sign.
    pub open spec fn signed(self) -> Option<int> {
        match self {
            JsonValue::Number(text) => signed_of(
                text,
                0x7fff_ffff_ffff_ffff,
                0x8000_0000_0000_0000,
            ),
            _ => None,
        }
    }
}

impl Clone for Json {
    fn clone(&self) -> (r: Json)
        ensures
            r@ == self@,
        decreases self,
    {
        match self {
            Json::Null => Json::Null,
            Json::Bool(b) => Json::Bool(*b),
            Json::Number(n) => Json::Number(n.clone()),
            Json::String(s) => Json::String(s.clone()),
            Json::Array(items) => {
                let mut out: Vec<Json> = Vec::new();
                let mut i: usize = 0;
                while i < items.len()
                    invariant
                        *self == Json::Array(*items),
                        i <= items@.len(),
                        out@.len() == i,
                        forall|j: int| 0 <= j < i ==> (#[trigger] out@[j])@ == items@[j]@,
                    decreases items@.len() - i,
                {
                    let item = &items[i];
                    assert(decreases_to!(*self => self->Array_0));
                    assert(decreases_to!(*items => items[i as int]));
                    out.push(item.clone());
                    i = i + 1;
                }
                proof {
                    lemma_array_view(out);
                    lemma_array_view(*items);
                    assert(items_view(out@) =~= items_view(items@));
                }
                Json::Array(out)
            },
            Json::Object(members) => {
                let mut out: Vec<(String, Json)> = Vec::new();
                let mut i: usize = 0;
                while i < members.len()
                    invariant
                        *self == Json::Object(*members),
                        i <= members@.len(),
                        out@.len() == i,
                        forall|j: int|
                            0 <= j < i ==> (#[trigger] out@[j]).0@ == members@[j].0@ && out@[j].1@
                                == members@[j].1@,
                    decreases members@.len() - i,
                {
                    let member = &members[i];
                    assert(decreases_to!(*self => self->Object_0));
                    assert(decreases_to!(*members => members[i as int]));
                    assert(decreases_to!(members[i as int] => members[i as int].1));
                    out.push((member.0.clone(), member.1.clone()));
                    i = i + 1;
                }
                proof {
                    lemma_object_view(out);
                    lemma_object_view(*members);
                    assert(members_view(out@) =~= members_view(members@));
                }
                Json::Object(out)
            },
        }
    }
}

impl Json {
    /// The number `n` as a document.
    pub fn number(n: u128) -> (doc: Json)
        ensures
            doc@ == JsonValue::Number(decimal_digits(n as nat)),
    {
        Json::Number(decimal_text(n))
    }

    /// The text `s` as a document.
    pub fn string(s: &str) -> (doc: Json)
        ensures
            doc@ == JsonValue::String(s@),
    {
        Json::String(String::from_str(s))
    }

    /// An array of the given items.
    pub fn array(items: Vec<Json>) -> (doc: Json)
        ensures
            doc@ == JsonValue::Array(items_view(items@)),
    {
        proof {
            lemma_array_view(items);
        }
        Json::Array(items)
    }

    /// An object of the given members, in their order.
    pub fn object(members: Vec<(String, Json)>) -> (doc: Json)
        ensures
            doc@ == JsonValue::Object(members_view(members@)),
    {
        proof {
            lemma_object_view(members);
        }
        Json::Object(members)
    }

    /// Whether the document is `null`.
    pub fn is_null(&self) -> (r: bool)
        ensures
            r == (self@ is Null),
    {
        match self {
            Json::Null => true,
            _ => false,
        }
    }

    /// Whether the document is a truth value.
    pub fn is_boolean(&self) -> (r: bool)
        ensures
            r == (self@ is Bool),
    {
        match self {
            Json::Bool(_) => true,
            _ => false,
        }
    }

    /// Whether the document is an array.
    pub fn is_array(&self) -> (r: bool)
        ensures
            r == (self@ is Array),
    {
        match self {
            Json::Array(_) => true,
            _ => false,
        }
    }

    /// The truth value, where the document is one.
    pub fn as_bool(&self) -> (r: Option<bool>)
        ensures
            match r {
                Some(b) => self@ == JsonValue::Bool(b),
                None => !(self@ is Bool),
            },
    {
        match self {
            Json::Bool(b) => Some(*b),
            _ => None,
        }
    }

    /// The text, where the document is a string.
    pub fn as_str(&self) -> (r: Option<&str>)
        ensures
            match r {
                Some(s) => self@ == JsonValue::String(s@),
                None => !(self@ is String),
            },
    {
        match self {
            Json::String(s) => Some(s.as_str()),
            _ => None,
        }
    }

    /// The items, where the document is an array.
    pub fn as_array(&self) -> (r: Option<&Vec<Json>>)
        ensures
            match r {
                Some(items) => self@ == JsonValue::Array(items_view(items@)),
                None => !(self@ is Array),
            },
    {
        match self {
            Json::Array(items) => {
                proof {
                    lemma_array_view(*items);
                }
                Some(items)
            },
            _ => None,
        }
    }

    /// The members, where the document is an object.
    pub fn as_object(&self) -> (r: Option<&Vec<(String, Json)>>)
        ensures
            match r {
                Some(members) => self@ == JsonValue::Object(members_view(members@)),
                None => !(self@ is Object),
            },
    {
        match self {
            Json::Object(members) => {
                proof {
                    lemma_object_view(*members);
                }
                Some(members)
            },
            _ => None,
        }
    }

    /// The number as a `u64`: a number written with digits alone that fits.
    pub fn as_u64(&self) -> (r: Option<u64>)
        ensures
            match r {
                Some(n) => self@.unsigned(u64::MAX as nat) == Some(n as nat),
                None => self@.unsigned(u64::MAX as nat) is None,
            },
    {
        match self.as_u128(0xffff_ffff_ffff_ffff) {
            Some(n) => Some(n as u64),
            None => None,
        }
    }

    /// The number as an unsigned integer up to `limit`.
    pub fn as_u128(&self, limit: u128) -> (r: Option<u128>)
        ensures
            match r {
                Some(n) => self@.unsigned(limit as nat) == Some(n as nat),
                None => self@.unsigned(limit as nat) is None,
            },
    {
        match self {
            Json::Number(text) => {
                let chars = chars_of(text.as_str());
                assert(chars@.skip(0) =~= chars@);
                parse_digits(&chars, 0, limit)
            },
            _ => None,
        }
    }

    /// The number as an `i64`: digits alone after an optional minus sign, and
    /// within the type's range.
    pub fn as_i64(&self) -> (r: Option<i64>)
        ensures
            match r {
                Some(n) => self@.signed() == Some(n as int),
                None => self@.signed() is None,
            },
    {
        match self {
            Json::Number(text) => {
                let chars = chars_of(text.as_str());
                if chars.len() > 0 && chars[0] == '-' {
                    match parse_digits(&chars, 1, 0x8000_0000_0000_0000) {
                        Some(n) => {
                            if n == 0x8000_0000_0000_0000 {
                                Some(i64::MIN)
                            } else {
                                Some(-(n as i64))
                            }
                        },
                        None => None,
                    }
                } else {
                    assert(chars@.skip(0) =~= chars@);
                    match parse_digits(&chars, 0, 0x7fff_ffff_ffff_ffff) {
                        Some(n) => Some(n as i64),
                        None => None,
                    }
                }
            },
            _ => None,
        }
    }

    /// The first member called `key`, where the document is an object.
    pub fn get(&self, key: &str) -> (r: Option<&Json>)
        ensures
            match r {
                Some(found) => self@.member(key@) == Some(found@),
                None => self@.member(key@) is None,
            },
    {
        match self {
            Json::Object(members) => {
                proof {
                    lemma_object_view(*members);
                }
                let wanted = String::from_str(key);
                let ghost all = members_view(members@);
                let mut i: usize = 0;
                assert(all.skip(0) =~= all);
                while i < members.len()
                    invariant
                        i <= members@.len(),
                        wanted@ == key@,
                        all == members_view(members@),
                        self@ == JsonValue::Object(all),
                        find_member(all, key@) == find_member(all.skip(i as int), key@),
                    decreases members@.len() - i,
                {
                    assert(all.skip(i as int)[0] == all[i as int]);
                    if members[i].0 == wanted {
                        assert(all[i as int].value == members@[i as int].1@);
                        return Some(&members[i].1);
                    }
                    assert(all[i as int].name == members@[i as int].0@);
                    assert(all.skip(i as int).skip(1) =~= all.skip(i + 1));
                    i = i + 1;
                }
                None
            },
            _ => None,
        }
    }

    /// The document that `value` holds.
    pub fn from_value(value: &serde_json::Value) -> (doc: Json)
        ensures
            doc@ == held(*value),
        decreases held(*value),
    {
        match peek(value) {
            Part::Null => Json::Null,
            Part::Bool(b) => Json::Bool(b),
            Part::Number(text) => Json::Number(String::from_str(text)),
            Part::String(text) => Json::String(String::from_str(text)),
            Part::Array(items) => {
                let ghost all = held_items(items@);
                let mut out: Vec<Json> = Vec::new();
                let mut i: usize = 0;
                while i < items.len()
                    invariant
                        held(*value) == JsonValue::Array(all),
                        all == held_items(items@),
                        i <= items@.len(),
                        out@.len() == i,
                        forall|j: int| 0 <= j < i ==> (#[trigger] out@[j])@ == all[j],
                    decreases items@.len() - i,
                {
                    assert(decreases_to!(held(*value) => held(*value)->Array_0));
                    assert(decreases_to!(all => all[i as int]));
                    out.push(Json::from_value(&items[i]));
                    i = i + 1;
                }
                proof {
                    lemma_array_view(out);
                    assert(items_view(out@) =~= all);
                }
                Json::Array(out)
            },
            Part::Object(members) => {
                let ghost all = Seq::new(
                    members@.len(),
                    |i: int| MemberValue { name: members@[i].0@, value: held(*members@[i].1) },
                );
                let mut out: Vec<(String, Json)> = Vec::new();
                let mut i: usize = 0;
                while i < members.len()
                    invariant
                        held(*value) == JsonValue::Object(all),
                        all == Seq::new(
                            members@.len(),
                            |i: int|
                                MemberValue { name: members@[i].0@, value: held(*members@[i].1) },
                        ),
                        i <= members@.len(),
                        out@.len() == i,
                        forall|j: int|
                            0 <= j < i ==> (#[trigger] out@[j]).0@ == all[j].name && out@[j].1@
                                == all[j].value,
                    decreases members@.len() - i,
                {
                    assert(decreases_to!(held(*value) => held(*value)->Object_0));
                    assert(decreases_to!(all => all[i as int]));
                    assert(decreases_to!(all[i as int] => all[i as int].value));
                    let name = members[i].0.clone();
                    let inner = Json::from_value(members[i].1);
                    out.push((name, inner));
                    i = i + 1;
                }
                proof {
                    lemma_object_view(out);
                    assert(members_view(out@) =~= all);
                }
                Json::Object(out)
            },
        }
    }

    /// A `serde_json::Value` for this document. It holds the document as
    /// `serde_json` stores it: see [`stored`].
    pub fn to_value(&self) -> (value: serde_json::Value)
        ensures
            held(value) == stored(self@),
        decreases self,
    {
        match self {
            Json::Null => value_null(),
            Json::Bool(b) => value_bool(*b),
            Json::Number(text) => match value_number(text.as_str()) {
                Some(value) => value,
                None => value_null(),
            },
            Json::String(text) => value_string(text.clone()),
            Json::Array(items) => {
                let mut out: Vec<serde_json::Value> = Vec::new();
                let mut i: usize = 0;
                while i < items.len()
                    invariant
                        *self == Json::Array(*items),
                        i <= items@.len(),
                        out@.len() == i,
                        forall|j: int| 0 <= j < i ==> held(#[trigger] out@[j]) == stored(items@[j]@),
                    decreases items@.len() - i,
                {
                    assert(decreases_to!(*self => self->Array_0));
                    assert(decreases_to!(*items => items[i as int]));
                    out.push(items[i].to_value());
                    i = i + 1;
                }
                proof {
                    lemma_array_view(*items);
                    assert(held_items(out@) =~= stored(self@)->Array_0);
                }
                value_array(out)
            },
            Json::Object(members) => {
                let mut out: Vec<(String, serde_json::Value)> = Vec::new();
                let mut i: usize = 0;
                while i < members.len()
                    invariant
                        *self == Json::Object(*members),
                        i <= members@.len(),
                        out@.len() == i,
                        forall|j: int|
                            0 <= j < i ==> (#[trigger] out@[j]).0@ == members@[j].0@ && held(
                                out@[j].1,
                            ) == stored(members@[j].1@),
                    decreases members@.len() - i,
                {
                    assert(decreases_to!(*self => self->Object_0));
                    assert(decreases_to!(*members => members[i as int]));
                    assert(decreases_to!(members[i as int] => members[i as int].1));
                    let name = members[i].0.clone();
                    let inner = members[i].1.to_value();
                    out.push((name, inner));
                    i = i + 1;
                }
                proof {
                    lemma_object_view(*members);
                    assert(held_members(out@) =~= stored_members(self@->Object_0));
                }
                value_object(out)
            },
        }
    }

    /// The text that writes this document, as `serde_json` prints what it
    /// stores of it.
    pub fn to_text(&self) -> (text: String)
        ensures
            text@ == printed(stored(self@)),
    {
        let value = self.to_value();
        print_value(&value)
    }

    /// The document that a text writes, as `serde_json` reads it; nothing
    /// where the text is not JSON.
    pub fn from_text(text: &str) -> (doc: Option<Json>)
        ensures
            match doc {
                Some(d) => parsed(text@) == Some(d@),
                None => parsed(text@) is None,
            },
    {
        match parse_value(text) {
            Some(value) => Some(Json::from_value(&value)),
            None => None,
        }
    }
}

// ---------------------------------------------------------------------------
// What serde_json stores of a document
// ---------------------------------------------------------------------------

/// The place of the first member called `name`, if there is one.
pub open spec fn place_of(members: Seq<MemberValue>, name: Seq<char>) -> Option<int>
    decreases members.len(),
{
    if members.len() == 0 {
        None
    } else {
        match place_of(members.drop_last(), name) {
            Some(i) => Some(i),
            None => if members.last().name == name {
                Some(members.len() - 1)
            } else {
                None
            },
        }
    }
}

/// The members after `member` was put among them: where its name is taken,
/// its value stands at the place of that name, else it is the last member.
pub open spec fn put(members: Seq<MemberValue>, member: MemberValue) -> Seq<MemberValue> {
    match place_of(members, member.name) {
        Some(i) => members.update(i, member),
        None => members.push(member),
    }
}

/// The members that are left when they are put one after the other: each
/// name occurs once, at its first place and with its last value.
pub open spec fn merged(members: Seq<MemberValue>) -> Seq<MemberValue>
    decreases members.len(),
{
    if members.len() == 0 {
        Seq::empty()
    } else {
        put(merged(members.drop_last()), members.last())
    }
}

/// The members with what `serde_json` stores of their values.
pub open spec fn stored_members(members: Seq<MemberValue>) -> Seq<MemberValue>
    decreases members,
{
    Seq::new(
        members.len(),
        |i: int|
            if 0 <= i < members.len() {
                MemberValue { name: members[i].name, value: stored(members[i].value) }
            } else {
                MemberValue { name: Seq::empty(), value: JsonValue::Null }
            },
    )
}

/// What `serde_json` stores of a document: a number as the text that it
/// keeps for it, or `null` where the text writes no number; the members of
/// an object merged; everything else as it is.
pub open spec fn stored(doc: JsonValue) -> JsonValue
    decreases doc,
{
    match doc {
        JsonValue::Null => JsonValue::Null,
        JsonValue::Bool(b) => JsonValue::Bool(b),
        JsonValue::Number(text) => match kept_number(text) {
            Some(kept) => JsonValue::Number(kept),
            None => JsonValue::Null,
        },
        JsonValue::String(text) => JsonValue::String(text),
        JsonValue::Array(items) => JsonValue::Array(
            Seq::new(
                items.len(),
                |i: int|
                    if 0 <= i < items.len() {
                        stored(items[i])
                    } else {
                        JsonValue::Null
                    },
            ),
        ),
        JsonValue::Object(members) => JsonValue::Object(merged(stored_members(members))),
    }
}

/// Whether no two of the members have one name.
pub open spec fn names_differ(members: Seq<MemberValue>) -> bool {
    forall|i: int, j: int|
        0 <= i < j < members.len() ==> (#[trigger] members[i]).name != (#[trigger] members[j]).name
}

/// A name has a place among the members exactly where one of them has it.
pub proof fn lemma_place_of(members: Seq<MemberValue>, name: Seq<char>)
    ensures
        match place_of(members, name) {
            Some(i) => 0 <= i < members.len() && members[i].name == name,
            None => forall|i: int| 0 <= i < members.len() ==> (#[trigger] members[i]).name != name,
        },
    decreases members.len(),
{
    if members.len() > 0 {
        let before = members.drop_last();
        lemma_place_of(before, name);
        match place_of(before, name) {
            Some(i) => {
                assert(before[i] == members[i]);
            },
            None => {
                if members.last().name != name {
                    assert forall|i: int| 0 <= i < members.len() implies (
                    #[trigger] members[i]).name != name by {
                        if i < members.len() - 1 {
                            assert(before[i] == members[i]);
                        }
                    }
                }
            },
        }
    }
}

/// Members of which no two have one name are stored as they are.
pub proof fn lemma_merged_of_distinct(members: Seq<MemberValue>)
    requires
        names_differ(members),
    ensures
        merged(members) == members,
    decreases members.len(),
{
    if members.len() > 0 {
        let before = members.drop_last();
        assert forall|i: int, j: int| 0 <= i < j < before.len() implies (#[trigger] before[i]).name
            != (#[trigger] before[j]).name by {
            assert(before[i] == members[i]);
            assert(before[j] == members[j]);
        }
        lemma_merged_of_distinct(before);
        lemma_place_of(before, members.last().name);
        if place_of(before, members.last().name) is Some {
            let i = place_of(before, members.last().name)->Some_0;
            assert(before[i] == members[i]);
            assert(members[i].name != members[members.len() - 1].name);
        }
        assert(before.push(members.last()) =~= members);
    } else {
        assert(members =~= Seq::<MemberValue>::empty());
    }
}

/// The names and held values of members that are `serde_json` values.
pub open spec fn held_members(members: Seq<(String, serde_json::Value)>) -> Seq<MemberValue> {
    Seq::new(members.len(), |i: int| MemberValue { name: members[i].0@, value: held(members[i].1) })
}

/// The held values of items that are `serde_json` values.
pub open spec fn held_items(items: Seq<serde_json::Value>) -> Seq<JsonValue> {
    Seq::new(items.len(), |i: int| held(items[i]))
}

// ---------------------------------------------------------------------------
// serde_json
// ---------------------------------------------------------------------------

/// `serde_json::Value`: a JSON value as `serde_json` stores it. What one
/// holds is named by [`held`].
#[verifier::external_type_specification]
#[verifier::external_body]
pub struct ExValue(serde_json::Value);

/// What a `serde_json::Value` holds: the value, the numbers as the texts
/// that are kept for them, the members of an object in their order.
pub uninterp spec fn held(value: serde_json::Value) -> JsonValue;

/// What `serde_json::from_str` reads from a text; nothing where it reports
/// an error.
pub uninterp spec fn parsed(text: Seq<char>) -> Option<JsonValue>;

/// The text that `to_string` prints for a `serde_json::Value` that holds
/// `doc`: its compact form.
pub uninterp spec fn printed(doc: JsonValue) -> Seq<char>;

/// The text that a `serde_json::Number` keeps when it is read from `text`;
/// nothing where `text` does not write a number.
pub uninterp spec fn kept_number(text: Seq<char>) -> Option<Seq<char>>;

/// One level of a `serde_json::Value`: its kind, with the values inside it
/// left as `serde_json` has them.
enum Part<'a> {
    Null,
    Bool(bool),
    Number(&'a str),
    String(&'a str),
    Array(&'a Vec<serde_json::Value>),
    Object(Vec<(&'a String, &'a serde_json::Value)>),
}

impl<'a> Part<'a> {
    /// The value that the part is one level of.
    spec fn whole(self) -> JsonValue {
        match self {
            Part::Null => JsonValue::Null,
            Part::Bool(b) => JsonValue::Bool(b),
            Part::Number(text) => JsonValue::Number(text@),
            Part::String(text) => JsonValue::String(text@),
            Part::Array(items) => JsonValue::Array(held_items(items@)),
            Part::Object(members) => JsonValue::Object(
                Seq::new(
                    members@.len(),
                    |i: int| MemberValue { name: members@[i].0@, value: held(*members@[i].1) },
                ),
            ),
        }
    }
}

/// `serde_json::from_str`, asked for a `serde_json::Value`: the value read,
/// or nothing where the text is rejected. The outcome depends on the text
/// alone; what the value holds is not stated.
#[verifier::external_body]
fn parse_value(text: &str) -> (value: Option<serde_json::Value>)
    ensures
        match value {
            Some(v) => parsed(text@) == Some(held(v)),
            None => parsed(text@) is None,
        },
{
    match serde_json::from_str::<serde_json::Value>(text) {
        Ok(value) => Some(value),
        Err(_) => None,
    }
}

/// `to_string` of `serde_json::Value`. The text depends on what the value
/// holds alone; what the text is is not stated.
#[verifier::external_body]
fn print_value(value: &serde_json::Value) -> (text: String)
    ensures
        text@ == printed(held(*value)),
{
    value.to_string()
}

/// Tells the variants of `serde_json::Value` apart and hands out what each
/// one holds: a number's text by `Number::as_str`, the members of an object
/// in the order of `Map::iter`, which is their order in the object.
#[verifier::external_body]
fn peek(value: &serde_json::Value) -> (part: Part<'_>)
    ensures
        part.whole() == held(*value),
{
    match value {
        serde_json::Value::Null => Part::Null,
        serde_json::Value::Bool(b) => Part::Bool(*b),
        serde_json::Value::Number(n) => Part::Number(n.as_str()),
        serde_json::Value::String(s) => Part::String(s),
        serde_json::Value::Array(items) => Part::Array(items),
        serde_json::Value::Object(members) => Part::Object(members.iter().collect()),
    }
}

/// `Value::Null`.
#[verifier::external_body]
fn value_null() -> (value: serde_json::Value)
    ensures
        held(value) == JsonValue::Null,
{
    serde_json::Value::Null
}

/// `Value::Bool`.
#[verifier::external_body]
fn value_bool(b: bool) -> (value: serde_json::Value)
    ensures
        held(value) == JsonValue::Bool(b),
{
    serde_json::Value::Bool(b)
}

/// `Value::String`.
#[verifier::external_body]
fn value_string(text: String) -> (value: serde_json::Value)
    ensures
        held(value) == JsonValue::String(text@),
{
    serde_json::Value::String(text)
}

/// `str::parse` for `serde_json::Number`: the number that the text writes,
/// as a value; nothing where the text writes no number.
#[verifier::external_body]
fn value_number(text: &str) -> (value: Option<serde_json::Value>)
    ensures
        match value {
            Some(v) => kept_number(text@) is Some && held(v) == JsonValue::Number(
                kept_number(text@)->Some_0,
            ),
            None => kept_number(text@) is None,
        },
{
    match text.parse::<serde_json::Number>() {
        Ok(number) => Some(serde_json::Value::Number(number)),
        Err(_) => None,
    }
}

/// `Value::Array`: the items in their order.
#[verifier::external_body]
fn value_array(items: Vec<serde_json::Value>) -> (value: serde_json::Value)
    ensures
        held(value) == JsonValue::Array(held_items(items@)),
{
    serde_json::Value::Array(items)
}

/// `Value::Object` of a `serde_json::Map` that is collected from the
/// members: they are inserted one after the other, and inserting a name
/// that is there already puts the new value at the place of that name.
#[verifier::external_body]
fn value_object(members: Vec<(String, serde_json::Value)>) -> (value: serde_json::Value)
    ensures
        held(value) == JsonValue::Object(merged(held_members(members@))),
{
    serde_json::Value::Object(members.into_iter().collect())
}

} // verus!
