//! A plain model of the JSON values the event transport delivers and accepts.
//!
//! The transport hands payloads over as dynamic JSON documents.  The library
//! holds them in this enum so that every decoding decision is verified; the
//! unverified edge converts between this type and the transport's own value
//! type, turning each number into the two readings the logic uses (its exact
//! 64-bit integer value when it has one, and its value forced through the
//! lossy 32-bit conversion used for latency figures).

use vstd::prelude::*;
use crate::text::str_eq;

verus! {

/// One JSON value, as the library reads it.
pub enum JsonValue {
    Null,
    Bool(bool),
    /// A JSON number.  `exact` is its value when it is a 64-bit integer
    /// (`None` for fractional or out-of-range numbers); `approx` is the
    /// number converted to `i32` through floating point, saturating at the
    /// `i32` bounds — the only reading the logic uses for latency values.
    Num { exact: Option<i64>, approx: i32 },
    Str(String),
    Arr(Vec<JsonValue>),
    Obj(Vec<(String, JsonValue)>),
}

/// The value under `key`, scanning object entries front to back from
/// position `i`.
pub open spec fn obj_get_from(
    entries: Seq<(String, JsonValue)>,
    key: Seq<char>,
    i: int,
) -> Option<JsonValue>
    decreases entries.len() - i,
{
    if i < 0 || i >= entries.len() {
        None
    } else if entries[i].0@ == key {
        Some(entries[i].1)
    } else {
        obj_get_from(entries, key, i + 1)
    }
}

/// Scanning from position `i` equals scanning the tail from `i - 1`.
pub proof fn lemma_obj_get_offset(entries: Seq<(String, JsonValue)>, key: Seq<char>, i: int)
    requires
        i >= 1,
        entries.len() >= 1,
    ensures
        obj_get_from(entries, key, i) == obj_get_from(entries.drop_first(), key, i - 1),
    decreases entries.len() - i,
{
    if i < entries.len() {
        assert(entries.drop_first()[i - 1] == entries[i]);
        if entries[i].0@ != key {
            lemma_obj_get_offset(entries, key, i + 1);
        }
    }
}

/// How one appended entry changes lookups, from position `i` on: a key
/// found before is found unchanged; the appended entry answers only for
/// its own key, and only when that key was absent.
proof fn lemma_obj_get_push_from(
    entries: Seq<(String, JsonValue)>,
    pair: (String, JsonValue),
    key: Seq<char>,
    i: int,
)
    requires
        0 <= i <= entries.len(),
    ensures
        obj_get_from(entries.push(pair), key, i) == (if obj_get_from(entries, key, i) is Some {
            obj_get_from(entries, key, i)
        } else if pair.0@ == key {
            Some(pair.1)
        } else {
            None
        }),
    decreases entries.len() - i,
{
    let s2 = entries.push(pair);
    if i < entries.len() {
        assert(s2[i] == entries[i]);
        if entries[i].0@ != key {
            lemma_obj_get_push_from(entries, pair, key, i + 1);
        }
    } else {
        assert(s2[i] == pair);
        assert(obj_get_from(entries, key, i) is None);
        if pair.0@ != key {
            assert(obj_get_from(s2, key, i + 1) is None);
        }
    }
}

/// How one appended entry changes every lookup of the object.
pub proof fn lemma_obj_get_push(entries: Seq<(String, JsonValue)>, pair: (String, JsonValue))
    ensures
        forall|key: Seq<char>|
            #[trigger] obj_get_from(entries.push(pair), key, 0) == (if obj_get_from(
                entries,
                key,
                0,
            ) is Some {
                obj_get_from(entries, key, 0)
            } else if pair.0@ == key {
                Some(pair.1)
            } else {
                None
            }),
{
    assert forall|key: Seq<char>| true implies #[trigger] obj_get_from(entries.push(pair), key, 0)
        == (if obj_get_from(entries, key, 0) is Some {
        obj_get_from(entries, key, 0)
    } else if pair.0@ == key {
        Some(pair.1)
    } else {
        None
    }) by {
        lemma_obj_get_push_from(entries, pair, key, 0);
    }
}

impl JsonValue {
    /// The value under `key` when this is an object holding it.
    pub open spec fn spec_get(self, key: Seq<char>) -> Option<JsonValue> {
        match self {
            JsonValue::Obj(entries) => obj_get_from(entries@, key, 0),
            _ => None,
        }
    }

    /// The integer value of a JSON number, when it is one.
    pub open spec fn spec_as_i64(self) -> Option<i64> {
        match self {
            JsonValue::Num { exact, .. } => exact,
            _ => None,
        }
    }

    /// Looks up `key` in an object; `None` on any other value or when the
    /// key is absent.
    pub fn get<'a>(&'a self, key: &str) -> (r: Option<&'a JsonValue>)
        ensures
            match r {
                Some(v) => self.spec_get(key@) == Some(*v),
                None => self.spec_get(key@) is None,
            },
    {
        match self {
            JsonValue::Obj(entries) => {
                let mut i: usize = 0;
                while i < entries.len()
                    invariant
                        i <= entries@.len(),
                        self is Obj && self->Obj_0 == *entries,
                        self.spec_get(key@) == obj_get_from(entries@, key@, i as int),
                    decreases entries@.len() - i,
                {
                    if str_eq(entries[i].0.as_str(), key) {
                        return Some(&entries[i].1);
                    }
                    i = i + 1;
                }
                None
            },
            _ => None,
        }
    }

    /// The number's 64-bit integer value, as the transport's integer
    /// accessor reads it.
    pub fn as_i64(&self) -> (r: Option<i64>)
        ensures
            r == self.spec_as_i64(),
    {
        match self {
            JsonValue::Num { exact, .. } => *exact,
            _ => None,
        }
    }

    /// The number forced to `i32` through the lossy conversion used for
    /// latency values; `None` on any non-number.
    pub fn as_i32_lossy(&self) -> (r: Option<i32>)
        ensures
            match self {
                JsonValue::Num { approx, .. } => r == Some(*approx),
                _ => r is None,
            },
    {
        match self {
            JsonValue::Num { approx, .. } => Some(*approx),
            _ => None,
        }
    }

    /// The string slice this value holds, when it is a string.
    pub fn as_str(&self) -> (r: Option<&String>)
        ensures
            match r {
                Some(s) => self is Str && *s == self->Str_0,
                None => !(self is Str),
            },
    {
        match self {
            JsonValue::Str(s) => Some(s),
            _ => None,
        }
    }

    /// The boolean this value holds, when it is one.
    pub fn as_bool(&self) -> (r: Option<bool>)
        ensures
            match self {
                JsonValue::Bool(b) => r == Some(*b),
                _ => r is None,
            },
    {
        match self {
            JsonValue::Bool(b) => Some(*b),
            _ => None,
        }
    }

    /// Whether this value is JSON `null`.
    pub fn is_null(&self) -> (r: bool)
        ensures
            r == (self is Null),
    {
        match self {
            JsonValue::Null => true,
            _ => false,
        }
    }
}

} // verus!
