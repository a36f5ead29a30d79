//! JSON documents as the web APIs return them, and the lookups the player
//! makes in them (object fields, array items, pointer paths, strings).
use vstd::prelude::*;
use crate::text::{all_digits, chars_of, digits_value, parse_u64, str_eq_chars};

verus! {

/// A JSON value.
#[derive(Debug)]
pub enum Json {
    Null,
    Bool(bool),
    /// A number: its value when it is a whole number from 0 to `u64::MAX`,
    /// `None` for any other number (negative or fractional).
    Number(Option<u64>),
    Str(String),
    Array(Vec<Json>),
    /// An object's fields in order; a name occurs at most once.
    Object(Vec<(String, Json)>),
}

/// The value of the first field named `key`.
pub open spec fn field_in(fs: Seq<(String, Json)>, key: Seq<char>) -> Option<Json>
    decreases fs.len(),
{
    if fs.len() == 0 {
        None
    } else if fs[0].0@ == key {
        Some(fs[0].1)
    } else {
        field_in(fs.drop_first(), key)
    }
}

/// The field `key` of an object (`Value::get` with a name); `None` when `j`
/// is not an object or has no such field.
pub open spec fn field(j: Json, key: Seq<char>) -> Option<Json> {
    match j {
        Json::Object(fs) => field_in(fs@, key),
        _ => None,
    }
}

/// The array index a pointer token names: digits with no sign and no leading
/// zero (but `0` itself).
pub open spec fn index_token(t: Seq<char>) -> Option<nat> {
    if t.len() == 0 || t[0] == '+' || (t[0] == '0' && t.len() != 1) || !all_digits(t) {
        None
    } else {
        Some(digits_value(t))
    }
}

/// One step of a JSON pointer: a field of an object, an item of an array.
pub open spec fn step(j: Json, tok: Seq<char>) -> Option<Json> {
    match j {
        Json::Object(fs) => field_in(fs@, tok),
        Json::Array(v) => match index_token(tok) {
            Some(n) => if n < v@.len() {
                Some(v@[n as int])
            } else {
                None
            },
            None => None,
        },
        _ => None,
    }
}

/// The value reached from `j` through the tokens of a JSON pointer, in order.
pub open spec fn follow(j: Json, toks: Seq<Seq<char>>) -> Option<Json>
    decreases toks.len(),
{
    if toks.len() == 0 {
        Some(j)
    } else {
        match follow(j, toks.drop_last()) {
            Some(x) => step(x, toks.last()),
            None => None,
        }
    }
}

/// The text of a string value.
pub open spec fn text(j: Option<Json>) -> Option<Seq<char>> {
    match j {
        Some(Json::Str(s)) => Some(s@),
        _ => None,
    }
}

/// The value behind an optional reference.
pub open spec fn deref_opt(r: Option<&Json>) -> Option<Json> {
    match r {
        Some(x) => Some(*x),
        None => None,
    }
}

/// The text behind an optional string reference.
pub open spec fn str_view(r: Option<&String>) -> Option<Seq<char>> {
    match r {
        Some(s) => Some(s@),
        None => None,
    }
}

/// A whole number from 0 to `u64::MAX` (what deserializing a `u64` accepts).
pub open spec fn u64_val(j: Json) -> Option<u64> {
    match j {
        Json::Number(Some(n)) => Some(n),
        _ => None,
    }
}

/// The text of a string (what deserializing a `String` accepts).
pub open spec fn string_val(j: Json) -> Option<Seq<char>> {
    text(Some(j))
}

/// What deserializing an `Option<String>` gives: `null` is no string, a
/// string is that string, anything else is an error (`None`).
pub open spec fn opt_string_val(j: Json) -> Option<Option<Seq<char>>> {
    match j {
        Json::Null => Some(None),
        Json::Str(s) => Some(Some(s@)),
        _ => None,
    }
}

/// The optional text behind an optional string.
pub open spec fn opt_view(o: Option<String>) -> Option<Seq<char>> {
    match o {
        Some(s) => Some(s@),
        None => None,
    }
}

impl Json {
    /// The field `key` of an object.
    pub fn get(&self, key: &str) -> (r: Option<&Json>)
        ensures
            deref_opt(r) == field(*self, key@),
    {
        match self {
            Json::Object(fs) => {
                let n = fs.len();
                let mut i: usize = 0;
                assert(fs@.skip(0) =~= fs@);
                while i < n
                    invariant
                        n == fs@.len(),
                        i <= n,
                        field(*self, key@) == field_in(fs@, key@),
                        field_in(fs@, key@) == field_in(fs@.skip(i as int), key@),
                    decreases n - i,
                {
                    let name = chars_of(fs[i].0.as_str());
                    proof {
                        let t = fs@.skip(i as int);
                        assert(t[0] == fs@[i as int]);
                        assert(t.drop_first() =~= fs@.skip(i + 1));
                    }
                    if str_eq_chars(key, name.as_slice()) {
                        return Some(&fs[i].1);
                    }
                    i = i + 1;
                }
                assert(fs@.skip(n as int).len() == 0);
                None
            },
            _ => None,
        }
    }

    /// One step of a JSON pointer from this value.
    pub fn step(&self, tok: &str) -> (r: Option<&Json>)
        ensures
            deref_opt(r) == step(*self, tok@),
    {
        match self {
            Json::Object(_) => self.get(tok),
            Json::Array(v) => {
                let t = chars_of(tok);
                let vl = v.len();
                if t.len() == 0 || t[0] == '+' || (t[0] == '0' && t.len() != 1) {
                    return None;
                }
                match parse_u64(t.as_slice()) {
                    Some(n) => {
                        proof {
                            assert(t@[0] != '+');
                        }
                        if n < v.len() as u64 {
                            Some(&v[n as usize])
                        } else {
                            None
                        }
                    },
                    None => {
                        proof {
                            assert(t@[0] != '+');
                            if all_digits(t@) {
                                assert(digits_value(t@) > u64::MAX);
                                assert(v@.len() == vl);
                            }
                        }
                        None
                    },
                }
            },
            _ => None,
        }
    }

    /// The value reached through the tokens of a JSON pointer (what
    /// `Value::pointer` does once the pointer is split at `/`).
    pub fn follow(&self, toks: &[&str]) -> (r: Option<&Json>)
        ensures
            deref_opt(r) == follow(*self, toks@.map_values(|t: &str| t@)),
    {
        let ghost ts = toks@.map_values(|t: &str| t@);
        let mut cur: Option<&Json> = Some(self);
        let mut i: usize = 0;
        assert(ts.take(0).len() == 0);
        while i < toks.len()
            invariant
                i <= toks@.len(),
                ts == toks@.map_values(|t: &str| t@),
                deref_opt(cur) == follow(*self, ts.take(i as int)),
            decreases toks@.len() - i,
        {
            proof {
                assert(ts.take(i + 1).drop_last() =~= ts.take(i as int));
                assert(ts.take(i + 1).last() == toks@[i as int]@);
            }
            cur = match cur {
                Some(j) => j.step(toks[i]),
                None => None,
            };
            i = i + 1;
        }
        assert(ts.take(toks@.len() as int) =~= ts);
        cur
    }

    /// A whole number from 0 to `u64::MAX`.
    pub fn as_u64(&self) -> (r: Option<u64>)
        ensures
            r == u64_val(*self),
    {
        match self {
            Json::Number(Some(n)) => Some(*n),
            _ => None,
        }
    }

    /// A string or `null`, as an optional string.
    pub fn as_opt_string(&self) -> (r: Option<Option<String>>)
        ensures
            match r {
                Some(o) => opt_string_val(*self) == Some(opt_view(o)),
                None => opt_string_val(*self) is None,
            },
    {
        match self {
            Json::Null => Some(None),
            Json::Str(s) => Some(Some(s.clone())),
            _ => None,
        }
    }

    /// The text of a string value (`Value::as_str`).
    pub fn as_str(&self) -> (r: Option<&String>)
        ensures
            str_view(r) == text(Some(*self)),
    {
        match self {
            Json::Str(s) => Some(s),
            _ => None,
        }
    }
}

/// The text of an optional value, if it is a string.
pub fn text_of(j: Option<&Json>) -> (r: Option<&String>)
    ensures
        str_view(r) == text(deref_opt(j)),
{
    match j {
        Some(x) => x.as_str(),
        None => None,
    }
}

} // verus!
