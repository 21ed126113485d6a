//! A JSON document as the library reads it, and JSON string literals as the
//! library writes them. Parsing JSON text is left to the caller; the library
//! only looks values up.

use vstd::prelude::*;

use crate::text::same_text;

verus! {

/// A JSON value. Numbers keep their textual form, since nothing here does
/// arithmetic on them.
#[derive(Debug)]
pub enum JsonValue {
    Null,
    Bool(bool),
    Number(String),
    Str(String),
    Array(Vec<JsonValue>),
    Object(Vec<JsonMember>),
}

/// One `"key": value` member of a JSON object. An object holds each key at
/// most once (`keys_unique`); a lookup takes the first member with the key.
#[derive(Debug)]
pub struct JsonMember {
    pub key: String,
    pub value: JsonValue,
}

/// The value of the first member of `members` named `key`.
pub open spec fn member_lookup(members: Seq<JsonMember>, key: Seq<char>) -> Option<JsonValue>
    decreases members.len(),
{
    if members.len() == 0 {
        None
    } else if members[0].key@ == key {
        Some(members[0].value)
    } else {
        member_lookup(members.drop_first(), key)
    }
}

/// Each key stands at most once among `members`, as in a parsed object.
pub open spec fn keys_unique(members: Seq<JsonMember>) -> bool {
    forall|i: int, j: int| 0 <= i < j < members.len() ==> (#[trigger] members[i]).key@
        != (#[trigger] members[j]).key@
}

/// Where each key stands at most once, looking a key up gives the one member
/// with that key, wherever it stands.
pub proof fn lemma_member_lookup_unique(members: Seq<JsonMember>, i: int)
    requires
        keys_unique(members),
        0 <= i < members.len(),
    ensures
        member_lookup(members, members[i].key@) == Some(members[i].value),
    decreases i,
{
    if i > 0 {
        let rest = members.drop_first();
        assert(members[0].key@ != members[i].key@);
        assert(rest[i - 1] == members[i]);
        assert forall|a: int, b: int| 0 <= a < b < rest.len() implies (#[trigger] rest[a]).key@
            != (#[trigger] rest[b]).key@ by {
            assert(rest[a] == members[a + 1] && rest[b] == members[b + 1]);
        }
        lemma_member_lookup_unique(rest, i - 1);
    }
}

/// The member `key` of `v` when `v` is an object holding it.
pub open spec fn json_get(v: JsonValue, key: Seq<char>) -> Option<JsonValue> {
    match v {
        JsonValue::Object(members) => member_lookup(members@, key),
        _ => None,
    }
}

/// The text of `v` when `v` is a string.
pub open spec fn json_as_str(v: JsonValue) -> Option<Seq<char>> {
    match v {
        JsonValue::Str(s) => Some(s@),
        _ => None,
    }
}

/// The elements of `v` when `v` is an array.
pub open spec fn json_as_array(v: JsonValue) -> Option<Seq<JsonValue>> {
    match v {
        JsonValue::Array(items) => Some(items@),
        _ => None,
    }
}

/// The lower-case hexadecimal digit for a value below 16.
pub open spec fn hex_digit_lower(v: int) -> char {
    if v < 10 {
        (48 + v) as char
    } else {
        (87 + v) as char
    }
}

/// How one character stands inside a JSON string literal: the quote, the
/// backslash and the control characters are escaped (the five with a short
/// escape use it, the others `\u00xx` with lower-case hex digits); every
/// other character, `/` and non-ASCII ones included, stands as it is.
pub open spec fn json_char_escape(c: char) -> Seq<char> {
    if c == '"' {
        seq!['\\', '"']
    } else if c == '\\' {
        seq!['\\', '\\']
    } else if c == '\u{8}' {
        seq!['\\', 'b']
    } else if c == '\t' {
        seq!['\\', 't']
    } else if c == '\n' {
        seq!['\\', 'n']
    } else if c == '\u{c}' {
        seq!['\\', 'f']
    } else if c == '\r' {
        seq!['\\', 'r']
    } else if (c as int) < 0x20 {
        seq!['\\', 'u', '0', '0', hex_digit_lower(c as int / 16), hex_digit_lower(c as int % 16)]
    } else {
        seq![c]
    }
}

/// The characters of `s`, each escaped for a JSON string literal.
pub open spec fn json_escaped(s: Seq<char>) -> Seq<char>
    decreases s.len(),
{
    if s.len() == 0 {
        Seq::empty()
    } else {
        json_char_escape(s[0]) + json_escaped(s.drop_first())
    }
}

/// The JSON string literal for `s`: its escaped characters between quotes.
pub open spec fn json_string_literal(s: Seq<char>) -> Seq<char> {
    seq!['"'] + json_escaped(s) + seq!['"']
}

/// Calls `serde_json::to_string` on a string slice, which writes the string
/// literal with serde_json's compact formatter: a quote, the characters
/// escaped as `json_char_escape` says, and a quote. For a `str` the call
/// cannot fail (it only writes into a `Vec`), so the `Err` arm is never taken.
#[verifier::external_body]
pub(crate) fn json_quote(s: &str) -> (r: String)
    ensures
        r@ == json_string_literal(s@),
{
    match serde_json::to_string(s) {
        Ok(t) => t,
        Err(_) => String::new(),
    }
}

impl JsonValue {
    /// The member `key` of this value, when it is an object that has one.
    pub fn get(&self, key: &str) -> (r: Option<&JsonValue>)
        ensures
            match r {
                Some(x) => json_get(*self, key@) == Some(*x),
                None => json_get(*self, key@) is None,
            },
            match *self {
                JsonValue::Object(members) => keys_unique(members@) ==> forall|i: int|
                    0 <= i < members@.len() && (#[trigger] members@[i]).key@ == key@ ==> (
                    r matches Some(x) && *x == members@[i].value),
                _ => true,
            },
    {
        match self {
            JsonValue::Object(members) => {
                let mut i: usize = 0;
                proof {
                    assert(members@.skip(0) =~= members@);
                    if keys_unique(members@) {
                        assert forall|j: int| 0 <= j < members@.len() && (
                        #[trigger] members@[j]).key@ == key@ implies member_lookup(members@, key@)
                            == Some(members@[j].value) by {
                            lemma_member_lookup_unique(members@, j);
                        }
                    }
                }
                while i < members.len()
                    invariant
                        i <= members.len(),
                        *self == JsonValue::Object(*members),
                        keys_unique(members@) ==> forall|j: int| 0 <= j < members@.len() && (
                        #[trigger] members@[j]).key@ == key@ ==> member_lookup(members@, key@)
                            == Some(members@[j].value),
                        json_get(*self, key@) == member_lookup(members@, key@),
                        member_lookup(members@, key@) == member_lookup(
                            members@.skip(i as int),
                            key@,
                        ),
                    decreases members.len() - i,
                {
                    proof {
                        assert(members@.skip(i as int).drop_first() =~= members@.skip(i + 1));
                    }
                    if same_text(members[i].key.as_str(), key) {
                        proof {
                            assert(members@.skip(i as int)[0] == members@[i as int]);
                        }
                        return Some(&members[i].value);
                    }
                    i = i + 1;
                }
                None
            },
            _ => None,
        }
    }

    /// The text of this value, when it is a string.
    pub fn as_str(&self) -> (r: Option<&String>)
        ensures
            match r {
                Some(s) => json_as_str(*self) == Some(s@),
                None => json_as_str(*self) is None,
            },
    {
        match self {
            JsonValue::Str(s) => Some(s),
            _ => None,
        }
    }

    /// The elements of this value, when it is an array.
    pub fn as_array(&self) -> (r: Option<&Vec<JsonValue>>)
        ensures
            match r {
                Some(items) => json_as_array(*self) == Some(items@),
                None => json_as_array(*self) is None,
            },
    {
        match self {
            JsonValue::Array(items) => Some(items),
            _ => None,
        }
    }
}

} // verus!
