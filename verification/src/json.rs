//! A JSON value as the library holds it.
//!
//! Gateway payloads, message components and other free-form Discord data
//! arrive as JSON.  The library keeps such data as a [`JsonValue`]: numbers
//! that are integers keep their value, any other number keeps its decimal
//! text, and objects keep their members in order.

use vstd::prelude::*;
use crate::text::str_eq;

verus! {

/// A JSON value.
#[derive(Debug)]
pub enum JsonValue {
    /// `null`.
    Null,
    /// `true` or `false`.
    Bool(bool),
    /// A non-negative integer.
    UInt(u64),
    /// A negative integer.
    Int(i64),
    /// Any other number, by its decimal text.
    Float(String),
    /// A string.
    Str(String),
    /// An array.
    Array(Vec<JsonValue>),
    /// An object: its members, each key at most once.
    Object(Vec<(String, JsonValue)>),
}

impl Clone for JsonValue {
    fn clone(&self) -> (r: Self)
        ensures
            json_same(r, *self),
    {
        self.deep_clone()
    }
}

/// The data a [`JsonValue`] holds, as a mathematical value: strings are
/// character sequences and containers are sequences.
#[verifier::ext_equal]
pub enum Json {
    Null,
    Bool(bool),
    UInt(u64),
    Int(i64),
    Float(Seq<char>),
    Str(Seq<char>),
    Array(Seq<Json>),
    Object(Seq<(Seq<char>, Json)>),
}

impl JsonValue {
    /// The data the value holds.
    pub open spec fn model(self) -> Json
        decreases self, 0nat,
    {
        match self {
            JsonValue::Null => Json::Null,
            JsonValue::Bool(b) => Json::Bool(b),
            JsonValue::UInt(n) => Json::UInt(n),
            JsonValue::Int(n) => Json::Int(n),
            JsonValue::Float(t) => Json::Float(t@),
            JsonValue::Str(t) => Json::Str(t@),
            JsonValue::Array(items) => Json::Array(items_model(items@)),
            JsonValue::Object(members) => Json::Object(members_model(members@)),
        }
    }
}

/// The data of each value of a sequence.
pub open spec fn items_model(items: Seq<JsonValue>) -> Seq<Json>
    decreases items, items.len(),
{
    if items.len() == 0 {
        Seq::empty()
    } else {
        seq![items[0].model()] + items_model(items.subrange(1, items.len() as int))
    }
}

/// The keys and data of each member of a sequence.
pub open spec fn members_model(members: Seq<(String, JsonValue)>) -> Seq<(Seq<char>, Json)>
    decreases members, members.len(),
{
    if members.len() == 0 {
        Seq::empty()
    } else {
        seq![(members[0].0@, members[0].1.model())] + members_model(members.subrange(1, members.len() as int))
    }
}

/// The data of a sequence of values is, position by position, the data of
/// each value.
pub proof fn lemma_items_model(items: Seq<JsonValue>)
    ensures
        items_model(items).len() == items.len(),
        forall|k: int| 0 <= k < items.len() ==> #[trigger] items_model(items)[k] == items[k].model(),
    decreases items.len(),
{
    if items.len() > 0 {
        let rest = items.subrange(1, items.len() as int);
        lemma_items_model(rest);
        assert forall|k: int| 0 <= k < items.len() implies #[trigger] items_model(items)[k] == items[k].model() by {
            if k > 0 {
                assert(rest[k - 1] == items[k]);
            }
        }
    }
}

/// The keys and data of a sequence of members are, position by position,
/// those of each member.
pub proof fn lemma_members_model(members: Seq<(String, JsonValue)>)
    ensures
        members_model(members).len() == members.len(),
        forall|k: int| 0 <= k < members.len() ==> #[trigger] members_model(members)[k] == (members[k].0@, members[k].1.model()),
    decreases members.len(),
{
    if members.len() > 0 {
        let rest = members.subrange(1, members.len() as int);
        lemma_members_model(rest);
        assert forall|k: int| 0 <= k < members.len() implies #[trigger] members_model(members)[k] == (members[k].0@, members[k].1.model()) by {
            if k > 0 {
                assert(rest[k - 1] == members[k]);
            }
        }
    }
}

/// The JSON number of a signed integer: non-negative integers are held as
/// unsigned ones.
pub open spec fn int_json(v: i64) -> Json {
    if v >= 0 {
        Json::UInt(v as u64)
    } else {
        Json::Int(v)
    }
}

/// The JSON number of a signed integer.
pub fn int_value(v: i64) -> (r: JsonValue)
    ensures
        r.model() == int_json(v),
{
    if v >= 0 {
        JsonValue::UInt(v as u64)
    } else {
        JsonValue::Int(v)
    }
}

/// The JSON string of a text.
pub fn str_value(s: &str) -> (r: JsonValue)
    ensures
        r.model() == Json::Str(s@),
{
    JsonValue::Str(s.to_owned())
}

/// Every value holds the same JSON data as itself.
pub proof fn lemma_json_same_refl(a: JsonValue)
    ensures
        json_same(a, a),
    decreases a,
{
    match a {
        JsonValue::Array(x) => {
            assert forall|k: int| 0 <= k < x@.len() implies json_same(#[trigger] x@[k], x@[k]) by {
                assert(decreases_to!(a => x));
                assert(decreases_to!(x => x@));
                assert(decreases_to!(x@ => x@[k]));
                lemma_json_same_refl(x@[k]);
            }
        },
        JsonValue::Object(x) => {
            assert forall|k: int| 0 <= k < x@.len() implies (#[trigger] x@[k]).0@ == x@[k].0@ && json_same(x@[k].1, x@[k].1) by {
                assert(decreases_to!(a => x));
                assert(decreases_to!(x => x@));
                assert(decreases_to!(x@ => x@[k]));
                assert(decreases_to!(x@[k] => x@[k].1));
                lemma_json_same_refl(x@[k].1);
            }
        },
        _ => {},
    }
}

/// Values that hold the same JSON data have the same model.
pub proof fn lemma_json_same_model(a: JsonValue, b: JsonValue)
    requires
        json_same(a, b),
    ensures
        a.model() == b.model(),
    decreases a,
{
    match (a, b) {
        (JsonValue::Array(x), JsonValue::Array(y)) => {
            lemma_items_model(x@);
            lemma_items_model(y@);
            assert forall|k: int| 0 <= k < x@.len() implies items_model(x@)[k] == items_model(y@)[k] by {
                assert(decreases_to!(a => x));
                assert(decreases_to!(x => x@));
                assert(decreases_to!(x@ => x@[k]));
                lemma_json_same_model(x@[k], y@[k]);
            }
            assert(items_model(x@) =~= items_model(y@));
        },
        (JsonValue::Object(x), JsonValue::Object(y)) => {
            lemma_members_model(x@);
            lemma_members_model(y@);
            assert forall|k: int| 0 <= k < x@.len() implies members_model(x@)[k] == members_model(y@)[k] by {
                assert(decreases_to!(a => x));
                assert(decreases_to!(x => x@));
                assert(decreases_to!(x@ => x@[k]));
                assert(decreases_to!(x@[k] => x@[k].1));
                lemma_json_same_model(x@[k].1, y@[k].1);
            }
            assert(members_model(x@) =~= members_model(y@));
        },
        _ => {},
    }
}

/// The member `key: v` when there is a value, nothing otherwise: how an
/// optional field that is skipped when absent appears in an object.
pub open spec fn opt_member(key: Seq<char>, v: Option<Json>) -> Seq<(Seq<char>, Json)> {
    match v {
        Some(j) => seq![(key, j)],
        None => Seq::empty(),
    }
}

/// The data of an optional value.
pub open spec fn opt_model(v: Option<JsonValue>) -> Option<Json> {
    match v {
        Some(j) => Some(j.model()),
        None => None,
    }
}

/// Appends the member `key: value` to a list of members.
pub fn push_member(members: &mut Vec<(String, JsonValue)>, key: &str, value: JsonValue)
    ensures
        members_model(final(members)@) == members_model(old(members)@).push((key@, value.model())),
{
    let ghost vm = value.model();
    members.push((key.to_owned(), value));
    proof {
        lemma_members_model(old(members)@);
        lemma_members_model(final(members)@);
    }
    assert(members_model(final(members)@) =~= members_model(old(members)@).push((key@, vm)));
}

/// Appends the member `key: value` to a list of members when there is a
/// value.
pub fn push_opt_member(members: &mut Vec<(String, JsonValue)>, key: &str, value: Option<JsonValue>)
    ensures
        members_model(final(members)@) == members_model(old(members)@) + opt_member(key@, opt_model(value)),
{
    match value {
        Some(v) => {
            push_member(members, key, v);
            assert(members_model(old(members)@).push((key@, v.model())) =~= members_model(old(members)@) + seq![
                (key@, v.model()),
            ]);
        },
        None => {
            assert(members_model(old(members)@) + Seq::<(Seq<char>, Json)>::empty() =~= members_model(old(members)@));
        },
    }
}

/// An object of the given members.
pub fn object(members: Vec<(String, JsonValue)>) -> (r: JsonValue)
    ensures
        r.model() == Json::Object(members_model(members@)),
{
    JsonValue::Object(members)
}

/// An array of the given values.
pub fn array(items: Vec<JsonValue>) -> (r: JsonValue)
    ensures
        r.model() == Json::Array(items_model(items@)),
{
    JsonValue::Array(items)
}

/// The data of a sequence of values pushed one more.
pub proof fn lemma_items_model_push(items: Seq<JsonValue>, v: JsonValue)
    ensures
        items_model(items.push(v)) == items_model(items).push(v.model()),
{
    lemma_items_model(items);
    lemma_items_model(items.push(v));
    assert(items_model(items.push(v)) =~= items_model(items).push(v.model()));
}

/// Whether two values hold the same JSON data.
pub open spec fn json_same(a: JsonValue, b: JsonValue) -> bool
    decreases a,
{
    match (a, b) {
        (JsonValue::Array(x), JsonValue::Array(y)) => {
            &&& x@.len() == y@.len()
            &&& forall|k: int| 0 <= k < x@.len() ==> json_same(#[trigger] x@[k], y@[k])
        },
        (JsonValue::Object(x), JsonValue::Object(y)) => {
            &&& x@.len() == y@.len()
            &&& forall|k: int| 0 <= k < x@.len() ==> (#[trigger] x@[k]).0@ == y@[k].0@ && json_same(x@[k].1, y@[k].1)
        },
        (JsonValue::Float(x), JsonValue::Float(y)) => x@ == y@,
        (JsonValue::Str(x), JsonValue::Str(y)) => x@ == y@,
        _ => a == b,
    }
}

/// The value of the first member of `members` whose key is `key`.
pub open spec fn member_spec(members: Seq<(String, JsonValue)>, key: Seq<char>) -> Option<JsonValue>
    decreases members.len(),
{
    if members.len() == 0 {
        None
    } else if members[0].0@ == key {
        Some(members[0].1)
    } else {
        member_spec(members.drop_first(), key)
    }
}

/// The position of the first member of `members` whose key is `key`.
pub open spec fn member_index(members: Seq<(String, JsonValue)>, key: Seq<char>) -> Option<nat>
    decreases members.len(),
{
    if members.len() == 0 {
        None
    } else if members[0].0@ == key {
        Some(0)
    } else {
        match member_index(members.drop_first(), key) {
            Some(i) => Some(i + 1),
            None => None,
        }
    }
}

/// The member found for a key is the one at its position.
pub proof fn lemma_member_index(members: Seq<(String, JsonValue)>, key: Seq<char>)
    ensures
        match member_index(members, key) {
            Some(i) => i < members.len() && members[i as int].0@ == key && member_spec(members, key) == Some(members[i as int].1),
            None => member_spec(members, key) is None,
        },
    decreases members.len(),
{
    if members.len() > 0 && members[0].0@ != key {
        lemma_member_index(members.drop_first(), key);
    }
}

impl JsonValue {
    /// A copy of the value.
    pub fn deep_clone(&self) -> (r: JsonValue)
        ensures
            json_same(r, *self),
        decreases self,
    {
        match self {
            JsonValue::Null => JsonValue::Null,
            JsonValue::Bool(b) => JsonValue::Bool(*b),
            JsonValue::UInt(n) => JsonValue::UInt(*n),
            JsonValue::Int(n) => JsonValue::Int(*n),
            JsonValue::Float(t) => JsonValue::Float(t.clone()),
            JsonValue::Str(t) => JsonValue::Str(t.clone()),
            JsonValue::Array(items) => {
                let mut out: Vec<JsonValue> = Vec::new();
                let n = items.len();
                let mut i: usize = 0;
                while i < n
                    invariant
                        n == items@.len(),
                        i <= n,
                        out@.len() == i,
                        forall|k: int| 0 <= k < i ==> json_same(#[trigger] out@[k], items@[k]),
                        *self == JsonValue::Array(*items),
                    decreases n - i,
                {
                    assert(decreases_to!(*self => self->Array_0));
                    assert(decreases_to!(*items => items@));
                    assert(decreases_to!(items@ => items@[i as int]));
                    let v = items[i].deep_clone();
                    out.push(v);
                    i = i + 1;
                }
                JsonValue::Array(out)
            },
            JsonValue::Object(members) => {
                let mut out: Vec<(String, JsonValue)> = Vec::new();
                let n = members.len();
                let mut i: usize = 0;
                while i < n
                    invariant
                        n == members@.len(),
                        i <= n,
                        out@.len() == i,
                        forall|k: int| 0 <= k < i ==> (#[trigger] out@[k]).0@ == members@[k].0@ && json_same(out@[k].1, members@[k].1),
                        *self == JsonValue::Object(*members),
                    decreases n - i,
                {
                    assert(decreases_to!(*self => self->Object_0));
                    assert(decreases_to!(*members => members@));
                    assert(decreases_to!(members@ => members@[i as int]));
                    assert(decreases_to!(members@[i as int] => members@[i as int].1));
                    let k = members[i].0.clone();
                    let v = members[i].1.deep_clone();
                    out.push((k, v));
                    i = i + 1;
                }
                JsonValue::Object(out)
            },
        }
    }

    /// The member `key` of an object; `None` for a missing member and for
    /// any value that is not an object.
    pub open spec fn get_spec(self, key: Seq<char>) -> Option<JsonValue> {
        match self {
            JsonValue::Object(members) => member_spec(members@, key),
            _ => None,
        }
    }

    /// The value as an unsigned integer, if it is a non-negative integer.
    pub open spec fn as_u64_spec(self) -> Option<u64> {
        match self {
            JsonValue::UInt(n) => Some(n),
            _ => None,
        }
    }

    /// The value as a signed integer, if it is an integer that fits.
    pub open spec fn as_i64_spec(self) -> Option<i64> {
        match self {
            JsonValue::UInt(n) => if n <= i64::MAX as u64 {
                Some(n as i64)
            } else {
                None
            },
            JsonValue::Int(n) => Some(n),
            _ => None,
        }
    }

    /// The member `key` of an object.
    pub fn get(&self, key: &str) -> (r: Option<&JsonValue>)
        ensures
            match r {
                Some(v) => self.get_spec(key@) == Some(*v),
                None => self.get_spec(key@) is None,
            },
    {
        match self {
            JsonValue::Object(members) => {
                let n = members.len();
                let mut i: usize = 0;
                assert(members@.skip(0) =~= members@);
                while i < n
                    invariant
                        n == members@.len(),
                        i <= n,
                        *self == JsonValue::Object(*members),
                        member_spec(members@, key@) == member_spec(members@.skip(i as int), key@),
                    decreases n - i,
                {
                    let ghost rest = members@.skip(i as int);
                    assert(rest.drop_first() =~= members@.skip(i + 1));
                    assert(rest[0] == members@[i as int]);
                    if str_eq(members[i].0.as_str(), key) {
                        return Some(&members[i].1);
                    }
                    i = i + 1;
                }
                assert(members@.skip(n as int) =~= Seq::<(String, JsonValue)>::empty());
                None
            },
            _ => None,
        }
    }

    /// The value as an unsigned integer, if it is a non-negative integer.
    pub fn as_u64(&self) -> (r: Option<u64>)
        ensures
            r == self.as_u64_spec(),
    {
        match self {
            JsonValue::UInt(n) => Some(*n),
            _ => None,
        }
    }

    /// The value as a signed integer, if it is an integer that fits.
    pub fn as_i64(&self) -> (r: Option<i64>)
        ensures
            r == self.as_i64_spec(),
    {
        match self {
            JsonValue::UInt(n) => if *n <= 9_223_372_036_854_775_807u64 {
                Some(*n as i64)
            } else {
                None
            },
            JsonValue::Int(n) => Some(*n),
            _ => None,
        }
    }

    /// The value as a boolean, if it is one.
    pub fn as_bool(&self) -> (r: Option<bool>)
        ensures
            r == (match *self {
                JsonValue::Bool(b) => Some(b),
                _ => None,
            }),
    {
        match self {
            JsonValue::Bool(b) => Some(*b),
            _ => None,
        }
    }
}

} // verus!
