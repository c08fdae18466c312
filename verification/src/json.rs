//! A JSON value model for the messages exchanged with Chrome.
//!
//! Numbers keep what the protocol logic reads: non-negative integers,
//! negative integers, and any other number by its decimal text.
use vstd::prelude::*;

verus! {

/// A JSON number.
#[derive(Debug)]
pub enum JsonNumber {
    /// A non-negative integer.
    PosInt(u64),
    /// A negative integer.
    NegInt(i64),
    /// Any other number, held by its decimal text.
    Float(String),
}

/// A JSON value. Object entries keep their order; lookups take the first match.
#[derive(Debug)]
pub enum JsonValue {
    Null,
    Bool(bool),
    Number(JsonNumber),
    Str(String),
    Array(Vec<JsonValue>),
    Object(Vec<(String, JsonValue)>),
}

/// Mathematical model of a JSON number.
pub enum JsonNum {
    PosInt(u64),
    NegInt(i64),
    Float(Seq<char>),
}

/// Mathematical model of a JSON value.
pub enum Json {
    Null,
    Bool(bool),
    Number(JsonNum),
    Str(Seq<char>),
    Array(Seq<Json>),
    Object(Seq<(Seq<char>, Json)>),
}

impl JsonNumber {
    pub open spec fn model(&self) -> JsonNum {
        match self {
            JsonNumber::PosInt(n) => JsonNum::PosInt(*n),
            JsonNumber::NegInt(n) => JsonNum::NegInt(*n),
            JsonNumber::Float(s) => JsonNum::Float(s@),
        }
    }
}

impl JsonValue {
    pub open spec fn model(&self) -> Json
        decreases self,
    {
        match self {
            JsonValue::Null => Json::Null,
            JsonValue::Bool(b) => Json::Bool(*b),
            JsonValue::Number(n) => Json::Number(n.model()),
            JsonValue::Str(s) => Json::Str(s@),
            JsonValue::Array(v) => Json::Array(
                Seq::new(v@.len(), |i: int| if 0 <= i < v@.len() { v@[i].model() } else { Json::Null }),
            ),
            JsonValue::Object(v) => Json::Object(
                Seq::new(
                    v@.len(),
                    |i: int|
                        if 0 <= i < v@.len() {
                            (v@[i].0@, v@[i].1.model())
                        } else {
                            (Seq::empty(), Json::Null)
                        },
                ),
            ),
        }
    }
}

/// First value stored under `key` in an ordered list of object entries.
pub open spec fn lookup(entries: Seq<(Seq<char>, Json)>, key: Seq<char>) -> Option<Json>
    decreases entries.len(),
{
    if entries.len() == 0 {
        None
    } else if entries[0].0 == key {
        Some(entries[0].1)
    } else {
        lookup(entries.drop_first(), key)
    }
}

impl Json {
    /// The member `key` of an object; `None` for a missing key or a non-object.
    pub open spec fn get(self, key: Seq<char>) -> Option<Json> {
        match self {
            Json::Object(entries) => lookup(entries, key),
            _ => None,
        }
    }

    pub open spec fn as_str(self) -> Option<Seq<char>> {
        match self {
            Json::Str(s) => Some(s),
            _ => None,
        }
    }

    pub open spec fn as_u64(self) -> Option<u64> {
        match self {
            Json::Number(JsonNum::PosInt(n)) => Some(n),
            _ => None,
        }
    }

    pub open spec fn as_array(self) -> Option<Seq<Json>> {
        match self {
            Json::Array(items) => Some(items),
            _ => None,
        }
    }
}

/// `o.get(k)` followed by `as_str`.
pub open spec fn get_str(o: Option<Json>, key: Seq<char>) -> Option<Seq<char>> {
    match o {
        Some(j) => match j.get(key) {
            Some(v) => v.as_str(),
            None => None,
        },
        None => None,
    }
}

/// `o.get(k)`, where `o` may be absent.
pub open spec fn get_opt(o: Option<Json>, key: Seq<char>) -> Option<Json> {
    match o {
        Some(j) => j.get(key),
        None => None,
    }
}

pub open spec fn str_of(o: Option<Json>) -> Option<Seq<char>> {
    match o {
        Some(j) => j.as_str(),
        None => None,
    }
}

pub proof fn lemma_lookup_found(entries: Seq<(Seq<char>, Json)>, key: Seq<char>, i: int)
    requires
        0 <= i < entries.len(),
        entries[i].0 == key,
        forall|k: int| 0 <= k < i ==> entries[k].0 != key,
    ensures
        lookup(entries, key) == Some(entries[i].1),
    decreases i,
{
    if i > 0 {
        let rest = entries.drop_first();
        assert forall|k: int| 0 <= k < i - 1 implies rest[k].0 != key by {
            assert(rest[k] == entries[k + 1]);
        }
        lemma_lookup_found(rest, key, i - 1);
    }
}

proof fn lemma_lookup_missing(entries: Seq<(Seq<char>, Json)>, key: Seq<char>)
    requires
        forall|k: int| 0 <= k < entries.len() ==> entries[k].0 != key,
    ensures
        lookup(entries, key) is None,
    decreases entries.len(),
{
    if entries.len() > 0 {
        let rest = entries.drop_first();
        assert forall|k: int| 0 <= k < rest.len() implies rest[k].0 != key by {
            assert(rest[k] == entries[k + 1]);
        }
        lemma_lookup_missing(rest, key);
    }
}

impl JsonValue {
    /// Builds a JSON string.
    pub fn string(s: &str) -> (r: JsonValue)
        ensures
            r@ == Json::Str(s@),
    {
        JsonValue::Str(String::from_str(s))
    }

    /// Index of the first entry stored under `key`, if this is an object.
    fn find_key(entries: &Vec<(String, JsonValue)>, key: &str) -> (r: Option<usize>)
        ensures
            match r {
                Some(i) => i < entries@.len() && entries@[i as int].0@ == key@
                    && forall|k: int| 0 <= k < i ==> entries@[k].0@ != key@,
                None => forall|k: int| 0 <= k < entries@.len() ==> entries@[k].0@ != key@,
            },
    {
        let mut i: usize = 0;
        while i < entries.len()
            invariant
                i <= entries@.len(),
                forall|k: int| 0 <= k < i ==> entries@[k].0@ != key@,
            decreases entries@.len() - i,
        {
            if crate::text::str_eq(entries[i].0.as_str(), key) {
                return Some(i);
            }
            i = i + 1;
        }
        None
    }

    /// The member `key` of an object; `None` for a missing key or a non-object.
    pub fn get(&self, key: &str) -> (r: Option<&JsonValue>)
        ensures
            match r {
                Some(v) => self@.get(key@) == Some(v@),
                None => self@.get(key@) is None,
            },
    {
        match self {
            JsonValue::Object(entries) => {
                let ghost m = self@->Object_0;
                assert forall|k: int| 0 <= k < entries@.len() implies m[k] == (
                entries@[k].0@,
                entries@[k].1@,
                ) by {}
                match Self::find_key(entries, key) {
                    Some(i) => {
                        proof {
                            lemma_lookup_found(m, key@, i as int);
                        }
                        Some(&entries[i].1)
                    },
                    None => {
                        proof {
                            lemma_lookup_missing(m, key@);
                        }
                        None
                    },
                }
            },
            _ => None,
        }
    }

    /// Removes and returns the member `key` of an object, consuming the value.
    pub fn take(self, key: &str) -> (r: Option<JsonValue>)
        ensures
            match r {
                Some(v) => self@.get(key@) == Some(v@),
                None => self@.get(key@) is None,
            },
    {
        match self {
            JsonValue::Object(mut entries) => {
                let ghost m = self@->Object_0;
                assert forall|k: int| 0 <= k < entries@.len() implies m[k] == (
                entries@[k].0@,
                entries@[k].1@,
                ) by {}
                match Self::find_key(&entries, key) {
                    Some(i) => {
                        proof {
                            lemma_lookup_found(m, key@, i as int);
                        }
                        let entry = entries.remove(i);
                        Some(entry.1)
                    },
                    None => {
                        proof {
                            lemma_lookup_missing(m, key@);
                        }
                        None
                    },
                }
            },
            _ => None,
        }
    }

    pub fn as_str(&self) -> (r: Option<&str>)
        ensures
            match r {
                Some(s) => self@.as_str() == Some(s@),
                None => self@.as_str() is None,
            },
    {
        match self {
            JsonValue::Str(s) => Some(s.as_str()),
            _ => None,
        }
    }

    pub fn as_u64(&self) -> (r: Option<u64>)
        ensures
            r == self@.as_u64(),
    {
        match self {
            JsonValue::Number(JsonNumber::PosInt(n)) => Some(*n),
            _ => None,
        }
    }
}

/// Model of a list of object entries.
pub open spec fn entries_model(v: Seq<(String, JsonValue)>) -> Seq<(Seq<char>, Json)> {
    Seq::new(v.len(), |i: int| (v[i].0@, v[i].1@))
}

/// Model of a list of array items.
pub open spec fn items_model(v: Seq<JsonValue>) -> Seq<Json> {
    Seq::new(v.len(), |i: int| v[i]@)
}

/// Appends the member `key: value` to a list of object entries.
pub fn push_entry(entries: &mut Vec<(String, JsonValue)>, key: &str, value: JsonValue)
    ensures
        entries_model(final(entries)@) == entries_model(old(entries)@).push((key@, value@)),
{
    let ghost v = value@;
    entries.push((String::from_str(key), value));
    assert(entries_model(entries@) =~= entries_model(old(entries)@).push((key@, v)));
}

impl JsonValue {
    /// Builds an object from its entries.
    pub fn object(entries: Vec<(String, JsonValue)>) -> (r: JsonValue)
        ensures
            r@ == Json::Object(entries_model(entries@)),
    {
        let r = JsonValue::Object(entries);
        assert(r@->Object_0 =~= entries_model(entries@));
        r
    }

    /// Builds an array from its items.
    pub fn array(items: Vec<JsonValue>) -> (r: JsonValue)
        ensures
            r@ == Json::Array(items_model(items@)),
    {
        let r = JsonValue::Array(items);
        assert(r@->Array_0 =~= items_model(items@));
        r
    }
}

impl View for JsonValue {
    type V = Json;

    open spec fn view(&self) -> Json {
        self.model()
    }
}

} // verus!
