//! A model of the JSON values that requests carry, and JSON string quoting.

use vstd::prelude::*;
use vstd::string::*;

verus! {

/// A JSON value, holding as plain values what the proxy reads of it.
///
/// An object keeps its members in order; the JSON values handed to the proxy
/// never hold one key twice in the same object (see [`JsonValue::well_formed`]).
pub enum JsonValue {
    Null,
    Bool(bool),
    /// A number, kept as its JSON text.
    Number(String),
    Str(String),
    Array(Vec<JsonValue>),
    Object(Vec<(String, JsonValue)>),
}

/// The value stored under `key` among `members`: the first member with that key.
pub open spec fn member_value(members: Seq<(String, JsonValue)>, key: Seq<char>) -> Option<JsonValue>
    decreases members.len(),
{
    if members.len() == 0 {
        None
    } else if members[0].0@ == key {
        Some(members[0].1)
    } else {
        member_value(members.drop_first(), key)
    }
}

/// No key occurs twice among `members`.
pub open spec fn distinct_keys(members: Seq<(String, JsonValue)>) -> bool {
    forall|i: int, j: int|
        0 <= i < members.len() && 0 <= j < members.len() && i != j
            ==> #[trigger] members[i].0@ != #[trigger] members[j].0@
}

impl JsonValue {
    /// The value under `key` if this is an object that has that key.
    pub open spec fn get_spec(self, key: Seq<char>) -> Option<JsonValue> {
        match self {
            JsonValue::Object(members) => member_value(members@, key),
            _ => None,
        }
    }

    /// The text of a JSON string.
    pub open spec fn as_str_spec(self) -> Option<Seq<char>> {
        match self {
            JsonValue::Str(s) => Some(s@),
            _ => None,
        }
    }

    /// Objects, at every depth, hold each key at most once.
    pub open spec fn well_formed(self) -> bool
        decreases self,
    {
        match self {
            JsonValue::Array(items) => forall|i: int|
                0 <= i < items@.len() ==> (#[trigger] items@[i]).well_formed(),
            JsonValue::Object(members) => {
                &&& distinct_keys(members@)
                &&& forall|i: int|
                    0 <= i < members@.len() ==> (#[trigger] members@[i]).1.well_formed()
            },
            _ => true,
        }
    }

    /// The value under `key`, if this is an object holding that key.
    pub fn get(&self, key: &str) -> (r: Option<&JsonValue>)
        ensures
            r matches Some(v) ==> self.get_spec(key@) == Some(*v),
            r is None ==> self.get_spec(key@) is None,
    {
        match self {
            JsonValue::Object(members) => {
                let mut i: usize = 0;
                assert(members@.skip(0) =~= members@);
                while i < members.len()
                    invariant
                        i <= members@.len(),
                        self.get_spec(key@) == member_value(members@, key@),
                        member_value(members@, key@) == member_value(members@.skip(i as int), key@),
                    decreases members.len() - i,
                {
                    assert(members@.skip(i as int).drop_first() =~= members@.skip(i + 1));
                    assert(members@.skip(i as int)[0] == members@[i as int]);
                    if crate::text::text_eq(members[i].0.as_str(), key) {
                        assert(members@.skip(i as int).len() > 0);
                        assert(member_value(members@.skip(i as int), key@) == Some(members@[i as int].1));
                        return Some(&members[i].1);
                    }
                    i = i + 1;
                }
                None
            },
            _ => None,
        }
    }

    /// The text of this value if it is a JSON string.
    pub fn as_str(&self) -> (r: Option<&str>)
        ensures
            r matches Some(s) ==> self.as_str_spec() == Some(s@),
            r is None ==> self.as_str_spec() is None,
    {
        match self {
            JsonValue::Str(s) => Some(s.as_str()),
            _ => None,
        }
    }
}

/// In a well-formed object, the value read under a key is the one member
/// that has that key.
pub proof fn law_object_lookup(v: JsonValue, key: Seq<char>, i: int)
    requires
        v.well_formed(),
        v matches JsonValue::Object(members) && 0 <= i < members@.len() && members@[i].0@ == key,
    ensures
        v.get_spec(key) == Some(v->Object_0@[i].1),
{
    if let JsonValue::Object(members) = v {
        lemma_member_value_unique(members@, key, i);
    }
}

proof fn lemma_member_value_unique(members: Seq<(String, JsonValue)>, key: Seq<char>, i: int)
    requires
        distinct_keys(members),
        0 <= i < members.len(),
        members[i].0@ == key,
    ensures
        member_value(members, key) == Some(members[i].1),
    decreases members.len(),
{
    if i > 0 {
        let rest = members.drop_first();
        assert(members[0].0@ != key);
        assert(distinct_keys(rest)) by {
            assert forall|a: int, b: int|
                0 <= a < rest.len() && 0 <= b < rest.len() && a != b
                    implies #[trigger] rest[a].0@ != #[trigger] rest[b].0@ by {
                assert(rest[a] == members[a + 1]);
                assert(rest[b] == members[b + 1]);
            }
        }
        assert(rest[i - 1] == members[i]);
        lemma_member_value_unique(rest, key, i - 1);
    }
}

/// The JSON escape of one character, as serde_json writes it: quote,
/// backslash and the control characters are escaped, all else is kept.
pub open spec fn escape_char(c: char) -> Seq<char> {
    if c == '"' {
        seq!['\\', '"']
    } else if c == '\\' {
        seq!['\\', '\\']
    } else if c == '\x08' {
        seq!['\\', 'b']
    } else if c == '\t' {
        seq!['\\', 't']
    } else if c == '\n' {
        seq!['\\', 'n']
    } else if c == '\x0c' {
        seq!['\\', 'f']
    } else if c == '\r' {
        seq!['\\', 'r']
    } else if (c as u32) < 0x20 {
        seq!['\\', 'u', '0', '0', hex_digit((c as u32) / 16), hex_digit((c as u32) % 16)]
    } else {
        seq![c]
    }
}

/// A lower-case hexadecimal digit.
pub open spec fn hex_digit(d: u32) -> char {
    if d < 10 {
        ((d + 48) as u8) as char
    } else {
        ((d - 10 + 97) as u8) as char
    }
}

/// The escaped characters of `s`.
pub open spec fn escape_text(s: Seq<char>) -> Seq<char>
    decreases s.len(),
{
    if s.len() == 0 {
        Seq::empty()
    } else {
        escape_char(s[0]) + escape_text(s.drop_first())
    }
}

/// The JSON string literal for `s`: the escaped text between double quotes.
pub open spec fn json_quote(s: Seq<char>) -> Seq<char> {
    seq!['"'] + escape_text(s) + seq!['"']
}

/// Serialises a text as a JSON string with `serde_json::to_string`.
///
/// Trusted: serde_json writes a `str` as a double-quoted string in which it
/// escapes `"`, `\` and the characters below U+0020 (with `\b`, `\t`, `\n`,
/// `\f`, `\r`, or `\u00xx` in lower-case hex) and keeps every other character.
/// Serialising a `str` into memory does not fail.
#[verifier::external_body]
pub(crate) fn json_string_literal(s: &str) -> (r: String)
    ensures
        r@ == json_quote(s@),
{
    match serde_json::to_string(s) {
        Ok(text) => text,
        Err(_) => String::new(),
    }
}

} // verus!
