//! JSON documents, as they travel to and from the search engine.
//!
//! [`JsonValue`] is the executable tree; [`Json`] is its mathematical model,
//! over which every contract of this crate that speaks of a document is
//! stated. Numbers are either integers in the range of `i64` or binary64
//! floating-point numbers, the latter carried as their IEEE 754 bit pattern.

use vstd::prelude::*;
use crate::text::{owned, texts};

verus! {

/// A JSON document.
///
/// An object keeps its members in the order in which they were written;
/// where a name occurs twice, the first member is the one that is read.
#[derive(Debug, PartialEq, Eq)]
pub enum JsonValue {
    Null,
    Bool(bool),
    /// An integral number.
    Int(i64),
    /// A binary64 number, as its bit pattern.
    Float(u64),
    Str(String),
    Array(Vec<JsonValue>),
    Object(Vec<(String, JsonValue)>),
}

/// The mathematical model of a [`JsonValue`].
pub enum Json {
    Null,
    Bool(bool),
    Int(i64),
    Float(u64),
    Str(Seq<char>),
    Array(Seq<Json>),
    Object(Seq<(Seq<char>, Json)>),
}

/// The model of a document: the same tree, with every string and list
/// replaced by the sequence it holds.
pub open spec fn model(v: JsonValue) -> Json
    decreases v,
{
    match v {
        JsonValue::Null => Json::Null,
        JsonValue::Bool(b) => Json::Bool(b),
        JsonValue::Int(i) => Json::Int(i),
        JsonValue::Float(f) => Json::Float(f),
        JsonValue::Str(s) => Json::Str(s@),
        JsonValue::Array(items) => Json::Array(
            Seq::new(
                items@.len(),
                |i: int|
                    if 0 <= i < items@.len() {
                        model(items@[i])
                    } else {
                        Json::Null
                    },
            ),
        ),
        JsonValue::Object(members) => Json::Object(
            Seq::new(
                members@.len(),
                |i: int|
                    if 0 <= i < members@.len() {
                        (members@[i].0@, model(members@[i].1))
                    } else {
                        (Seq::empty(), Json::Null)
                    },
            ),
        ),
    }
}

impl View for JsonValue {
    type V = Json;

    open spec fn view(&self) -> Json {
        model(*self)
    }
}

impl Clone for JsonValue {
    /// A copy of the whole document.
    fn clone(&self) -> (r: JsonValue)
        ensures
            r@ == self@,
    {
        self.duplicate()
    }
}

/// The models of a list of documents, item by item.
pub open spec fn items_model(items: Seq<JsonValue>) -> Seq<Json> {
    Seq::new(items.len(), |i: int| items[i]@)
}

/// The models of a list of object members, member by member.
pub open spec fn members_model(members: Seq<(String, JsonValue)>) -> Seq<(Seq<char>, Json)> {
    Seq::new(members.len(), |i: int| (members[i].0@, members[i].1@))
}

/// The JSON strings that hold `items`, item by item.
pub open spec fn text_items(items: Seq<Seq<char>>) -> Seq<Json> {
    Seq::new(items.len(), |i: int| Json::Str(items[i]))
}

/// The value of the first member named `key`, if there is one.
pub open spec fn lookup(members: Seq<(Seq<char>, Json)>, key: Seq<char>) -> Option<Json>
    decreases members.len(),
{
    if members.len() == 0 {
        None
    } else if members[0].0 == key {
        Some(members[0].1)
    } else {
        lookup(members.drop_first(), key)
    }
}

impl Json {
    /// The member `key` of an object; `None` where `self` is no object or
    /// has no such member.
    pub open spec fn field(self, key: Seq<char>) -> Option<Json> {
        match self {
            Json::Object(members) => lookup(members, key),
            _ => None,
        }
    }

    /// The member `key` of an object where it is present and not `null`.
    pub open spec fn present(self, key: Seq<char>) -> Option<Json> {
        match self.field(key) {
            Some(Json::Null) => None,
            other => other,
        }
    }

    /// The member `key` where it is an integral number.
    pub open spec fn int_at(self, key: Seq<char>) -> Option<i64> {
        match self.field(key) {
            Some(Json::Int(i)) => Some(i),
            _ => None,
        }
    }

    /// The member `key` where it is a truth value.
    pub open spec fn bool_at(self, key: Seq<char>) -> Option<bool> {
        match self.field(key) {
            Some(Json::Bool(b)) => Some(b),
            _ => None,
        }
    }

    /// The member `key` where it is a string.
    pub open spec fn text_at(self, key: Seq<char>) -> Option<Seq<char>> {
        match self.field(key) {
            Some(Json::Str(s)) => Some(s),
            _ => None,
        }
    }

    /// The strings of an array that holds nothing but strings.
    pub open spec fn as_texts(self) -> Option<Seq<Seq<char>>> {
        match self {
            Json::Array(items) => if forall|i: int| 0 <= i < items.len() ==> items[i] is Str {
                Some(Seq::new(items.len(), |i: int| items[i]->Str_0))
            } else {
                None
            },
            _ => None,
        }
    }
}

/// An array is modelled by the models of its items.
pub proof fn lemma_array_model(items: Vec<JsonValue>)
    ensures
        JsonValue::Array(items)@ == Json::Array(items_model(items@)),
{
    assert(JsonValue::Array(items)@->Array_0 =~= items_model(items@));
}

/// An object is modelled by the models of its members.
pub proof fn lemma_object_model(members: Vec<(String, JsonValue)>)
    ensures
        JsonValue::Object(members)@ == Json::Object(members_model(members@)),
{
    assert(JsonValue::Object(members)@->Object_0 =~= members_model(members@));
}

/// A member that is not the first one is found in the rest.
pub proof fn lemma_lookup_skip(members: Seq<(Seq<char>, Json)>, key: Seq<char>, i: int)
    requires
        0 <= i <= members.len(),
        forall|k: int| 0 <= k < i ==> members[k].0 != key,
    ensures
        lookup(members, key) == lookup(members.skip(i), key),
    decreases i,
{
    if i == 0 {
        assert(members.skip(0) =~= members);
    } else {
        lemma_lookup_skip(members, key, i - 1);
        let rest = members.skip(i - 1);
        assert(rest[0] == members[i - 1]);
        assert(rest.drop_first() =~= members.skip(i));
    }
}

/// An object member: the name `key` with the value `value`.
pub fn member(key: &str, value: JsonValue) -> (m: (String, JsonValue))
    ensures
        m.0@ == key@,
        m.1 == value,
{
    (owned(key), value)
}

impl JsonValue {
    /// The JSON string that holds `text`.
    pub fn text(text: &str) -> (v: JsonValue)
        ensures
            v@ == Json::Str(text@),
    {
        JsonValue::Str(owned(text))
    }

    /// The JSON array of the strings `items`.
    pub fn texts(items: &Vec<String>) -> (v: JsonValue)
        ensures
            v@ == Json::Array(text_items(texts(items@))),
    {
        let mut values: Vec<JsonValue> = Vec::new();
        let mut i: usize = 0;
        while i < items.len()
            invariant
                i <= items.len(),
                values@.len() == i,
                forall|k: int| 0 <= k < i ==> values@[k]@ == Json::Str(items@[k]@),
            decreases items.len() - i,
        {
            values.push(JsonValue::Str(items[i].clone()));
            i += 1;
        }
        assert(items_model(values@) =~= text_items(texts(items@)));
        JsonValue::array(values)
    }

    /// The JSON array of `items`.
    pub fn array(items: Vec<JsonValue>) -> (v: JsonValue)
        ensures
            v == JsonValue::Array(items),
            v@ == Json::Array(items_model(items@)),
    {
        proof {
            lemma_array_model(items);
        }
        JsonValue::Array(items)
    }

    /// The JSON object with the members `members`, in their order.
    pub fn object(members: Vec<(String, JsonValue)>) -> (v: JsonValue)
        ensures
            v == JsonValue::Object(members),
            v@ == Json::Object(members_model(members@)),
    {
        proof {
            lemma_object_model(members);
        }
        JsonValue::Object(members)
    }

    /// Whether this is `null`.
    pub fn is_null(&self) -> (r: bool)
        ensures
            r == (self@ is Null),
    {
        match self {
            JsonValue::Null => true,
            _ => false,
        }
    }

    /// The truth value, where this is one.
    pub fn as_bool(&self) -> (r: Option<bool>)
        ensures
            r == (match self@ {
                Json::Bool(b) => Some(b),
                _ => None,
            }),
    {
        match self {
            JsonValue::Bool(b) => Some(*b),
            _ => None,
        }
    }

    /// The integer, where this is an integral number.
    pub fn as_int(&self) -> (r: Option<i64>)
        ensures
            r == (match self@ {
                Json::Int(i) => Some(i),
                _ => None,
            }),
    {
        match self {
            JsonValue::Int(i) => Some(*i),
            _ => None,
        }
    }

    /// The text, where this is a string.
    pub fn as_text(&self) -> (r: Option<&String>)
        ensures
            match self@ {
                Json::Str(s) => r matches Some(t) && t@ == s,
                _ => r is None,
            },
    {
        match self {
            JsonValue::Str(s) => Some(s),
            _ => None,
        }
    }

    /// The items, where this is an array.
    pub fn as_array(&self) -> (r: Option<&Vec<JsonValue>>)
        ensures
            match self@ {
                Json::Array(items) => r matches Some(v) && items_model(v@) == items,
                _ => r is None,
            },
    {
        match self {
            JsonValue::Array(items) => {
                proof {
                    lemma_array_model(*items);
                }
                Some(items)
            },
            _ => None,
        }
    }

    /// The first member named `key`, where this is an object that has one.
    pub fn get(&self, key: &str) -> (r: Option<&JsonValue>)
        ensures
            match self@.field(key@) {
                Some(j) => r matches Some(v) && v@ == j,
                None => r is None,
            },
    {
        match self {
            JsonValue::Object(members) => {
                proof {
                    lemma_object_model(*members);
                }
                let ghost models = members_model(members@);
                let wanted = owned(key);
                let mut i: usize = 0;
                while i < members.len()
                    invariant
                        i <= members.len(),
                        wanted@ == key@,
                        self@ == Json::Object(models),
                        models == members_model(members@),
                        forall|k: int| 0 <= k < i ==> models[k].0 != key@,
                    decreases members.len() - i,
                {
                    if members[i].0 == wanted {
                        proof {
                            lemma_lookup_skip(models, key@, i as int);
                            let rest = models.skip(i as int);
                            assert(rest[0] == models[i as int]);
                            assert(models[i as int].0 == key@);
                            assert(lookup(rest, key@) == Some(models[i as int].1));
                        }
                        return Some(&members[i].1);
                    }
                    i += 1;
                }
                proof {
                    lemma_lookup_skip(models, key@, i as int);
                }
                None
            },
            _ => None,
        }
    }

    /// The member `key` where it is present and not `null`.
    pub fn get_present(&self, key: &str) -> (r: Option<&JsonValue>)
        ensures
            match self@.present(key@) {
                Some(j) => r matches Some(v) && v@ == j,
                None => r is None,
            },
    {
        match self.get(key) {
            Some(v) => if v.is_null() {
                None
            } else {
                Some(v)
            },
            None => None,
        }
    }

    /// A copy of the whole document.
    fn duplicate(&self) -> (r: JsonValue)
        ensures
            r@ == self@,
        decreases self,
    {
        match self {
            JsonValue::Null => JsonValue::Null,
            JsonValue::Bool(b) => JsonValue::Bool(*b),
            JsonValue::Int(i) => JsonValue::Int(*i),
            JsonValue::Float(f) => JsonValue::Float(*f),
            JsonValue::Str(s) => JsonValue::Str(s.clone()),
            JsonValue::Array(items) => {
                proof {
                    lemma_array_model(*items);
                }
                let mut copy: Vec<JsonValue> = Vec::new();
                let mut i: usize = 0;
                while i < items.len()
                    invariant
                        i <= items.len(),
                        *self == JsonValue::Array(*items),
                        copy@.len() == i,
                        forall|k: int| 0 <= k < i ==> copy@[k]@ == items@[k]@,
                    decreases items.len() - i,
                {
                    assert(decreases_to!(*self => self->Array_0@[i as int]));
                    copy.push(items[i].duplicate());
                    i += 1;
                }
                assert(items_model(copy@) =~= items_model(items@));
                JsonValue::array(copy)
            },
            JsonValue::Object(members) => {
                proof {
                    lemma_object_model(*members);
                }
                let mut copy: Vec<(String, JsonValue)> = Vec::new();
                let mut i: usize = 0;
                while i < members.len()
                    invariant
                        i <= members.len(),
                        *self == JsonValue::Object(*members),
                        copy@.len() == i,
                        forall|k: int|
                            0 <= k < i ==> copy@[k].0@ == members@[k].0@ && copy@[k].1@
                                == members@[k].1@,
                    decreases members.len() - i,
                {
                    assert(decreases_to!(*self => self->Object_0@[i as int].1));
                    copy.push((members[i].0.clone(), members[i].1.duplicate()));
                    i += 1;
                }
                assert(members_model(copy@) =~= members_model(members@));
                JsonValue::object(copy)
            },
        }
    }

    /// The member `key` where it is an integral number.
    pub fn int_at(&self, key: &str) -> (r: Option<i64>)
        ensures
            r == self@.int_at(key@),
    {
        match self.get(key) {
            Some(v) => v.as_int(),
            None => None,
        }
    }

    /// The member `key` where it is a truth value.
    pub fn bool_at(&self, key: &str) -> (r: Option<bool>)
        ensures
            r == self@.bool_at(key@),
    {
        match self.get(key) {
            Some(v) => v.as_bool(),
            None => None,
        }
    }

    /// A copy of the member `key` where it is a string.
    pub fn text_at(&self, key: &str) -> (r: Option<String>)
        ensures
            match self@.text_at(key@) {
                Some(s) => r matches Some(t) && t@ == s,
                None => r is None,
            },
    {
        match self.get(key) {
            Some(v) => match v.as_text() {
                Some(t) => Some(t.clone()),
                None => None,
            },
            None => None,
        }
    }

    /// Copies of the strings of an array that holds nothing but strings.
    pub fn as_texts(&self) -> (r: Option<Vec<String>>)
        ensures
            match self@.as_texts() {
                Some(s) => r matches Some(v) && texts(v@) == s,
                None => r is None,
            },
    {
        match self.as_array() {
            Some(items) => {
                let ghost models = items_model(items@);
                let mut copies: Vec<String> = Vec::new();
                let mut i: usize = 0;
                while i < items.len()
                    invariant
                        i <= items.len(),
                        self@ == Json::Array(models),
                        models == items_model(items@),
                        copies@.len() == i,
                        forall|k: int| 0 <= k < i ==> models[k] == Json::Str(#[trigger] copies@[k]@),
                    decreases items.len() - i,
                {
                    match items[i].as_text() {
                        Some(t) => {
                            copies.push(t.clone());
                        },
                        None => {
                            assert(!(models[i as int] is Str));
                            return None;
                        },
                    }
                    i += 1;
                }
                assert forall|k: int| 0 <= k < models.len() implies models[k] is Str by {
                    assert(models[k] == Json::Str(copies@[k]@));
                }
                assert(texts(copies@) =~= self@.as_texts()->Some_0);
                Some(copies)
            },
            None => None,
        }
    }
}

} // verus!
