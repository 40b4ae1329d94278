//! A plain model of JSON values, and the calls that turn text into it.

use vstd::prelude::*;
use crate::text::digit_char;
use crate::text::str_eq;

verus! {

/// A JSON value as the daemon's logic reads it.
#[derive(Debug, PartialEq, Eq)]
pub enum Json {
    Null,
    Bool(bool),
    /// A non-negative integer that fits in 64 bits.
    UInt(u64),
    /// A negative integer that fits in 64 bits.
    Int(i64),
    /// Any other number, kept as its decimal text.
    Float(String),
    Str(String),
    Array(Vec<Json>),
    /// The members in the order they are held; a key is looked up from the front.
    Object(Vec<(String, Json)>),
}

/// The mathematical value of a [`Json`].
pub enum JsonValue {
    Null,
    Bool(bool),
    UInt(u64),
    Int(i64),
    Float(Seq<char>),
    Str(Seq<char>),
    Array(Seq<JsonValue>),
    Object(Seq<(Seq<char>, JsonValue)>),
}

impl Json {
    /// The mathematical value of this JSON value.
    pub open spec fn value(self) -> JsonValue
        decreases self,
    {
        match self {
            Json::Null => JsonValue::Null,
            Json::Bool(b) => JsonValue::Bool(b),
            Json::UInt(n) => JsonValue::UInt(n),
            Json::Int(n) => JsonValue::Int(n),
            Json::Float(t) => JsonValue::Float(t@),
            Json::Str(s) => JsonValue::Str(s@),
            Json::Array(items) => JsonValue::Array(
                Seq::new(
                    items@.len(),
                    |i: int|
                        if 0 <= i < items@.len() {
                            items@[i].value()
                        } else {
                            JsonValue::Null
                        },
                ),
            ),
            Json::Object(members) => JsonValue::Object(
                Seq::new(
                    members@.len(),
                    |i: int|
                        if 0 <= i < members@.len() {
                            (members@[i].0@, members@[i].1.value())
                        } else {
                            (Seq::empty(), JsonValue::Null)
                        },
                ),
            ),
        }
    }
}

impl View for Json {
    type V = JsonValue;

    open spec fn view(&self) -> JsonValue {
        self.value()
    }
}

/// What `serde_json` reads from the JSON text `text`, as [`Json`] holds it:
/// an integer by its 64-bit range, any other number as its decimal text, the
/// members of an object in the order of `serde_json`'s map. `None` where the
/// bytes are not one JSON value.
pub uninterp spec fn json_of_text(text: Seq<u8>) -> Option<JsonValue>;

/// `serde_json::Value`, a JSON value as `serde_json` holds it. Nothing of
/// its contents is visible here; it is carried from the parser into
/// [`Json`].
#[verifier::external_type_specification]
#[verifier::external_body]
pub struct ExValue(serde_json::Value);

/// Carries a value of `serde_json` over into [`Json`], variant by variant.
/// A number becomes `UInt` where `Number::as_u64` gives it, else `Int` where
/// `Number::as_i64` gives it, else `Float` with the text that
/// `Number::to_string` writes. An object's members come in the order in
/// which `serde_json`'s map yields them. Nothing is claimed of the result
/// here.
#[verifier::external_body]
fn from_value(value: serde_json::Value) -> Json {
    match value {
        serde_json::Value::Null => Json::Null,
        serde_json::Value::Bool(b) => Json::Bool(b),
        serde_json::Value::Number(n) => match (n.as_u64(), n.as_i64()) {
            (Some(u), _) => Json::UInt(u),
            (None, Some(i)) => Json::Int(i),
            (None, None) => Json::Float(n.to_string()),
        },
        serde_json::Value::String(s) => Json::Str(s),
        serde_json::Value::Array(a) => Json::Array(a.into_iter().map(from_value).collect()),
        serde_json::Value::Object(o) => Json::Object(
            o.into_iter().map(|(k, v)| (k, from_value(v))).collect(),
        ),
    }
}

/// Parses JSON text with `serde_json::from_slice`. The result is the value
/// that `serde_json` reads from these bytes, named by [`json_of_text`];
/// `None` where it reports an error.
#[verifier::external_body]
pub(crate) fn parse_json(text: &[u8]) -> (parsed: Option<Json>)
    ensures
        match parsed {
            Some(value) => json_of_text(text@) == Some(value@),
            None => json_of_text(text@) is None,
        },
{
    match serde_json::from_slice::<serde_json::Value>(text) {
        Ok(value) => Some(from_value(value)),
        Err(_) => None,
    }
}

/// The lower-case hexadecimal digit for `d`.
pub open spec fn hex_digit(d: int) -> char
    recommends
        0 <= d < 16,
{
    if d < 10 {
        digit_char(d as nat)
    } else if d == 10 {
        'a'
    } else if d == 11 {
        'b'
    } else if d == 12 {
        'c'
    } else if d == 13 {
        'd'
    } else if d == 14 {
        'e'
    } else {
        'f'
    }
}

/// Whether JSON asks for a character to be escaped inside a string: the
/// double quote, the backslash, and the control characters below the space.
pub open spec fn needs_escape(c: char) -> bool {
    c == '"' || c == '\\' || (c as u32) < 0x20
}

/// How a character stands inside a JSON string. The double quote and the
/// backslash get a backslash before them. Backspace, form feed, line feed,
/// carriage return and tab are written `\b`, `\f`, `\n`, `\r`, `\t`. Any
/// other control character below the space is written `\u00` and its two
/// lower-case hexadecimal digits. Every other character stands for itself.
pub open spec fn escaped_char(c: char) -> Seq<char> {
    if c == '"' {
        seq!['\\', '"']
    } else if c == '\\' {
        seq!['\\', '\\']
    } else if c == '\u{08}' {
        seq!['\\', 'b']
    } else if c == '\u{0c}' {
        seq!['\\', 'f']
    } else if c == '\n' {
        seq!['\\', 'n']
    } else if c == '\r' {
        seq!['\\', 'r']
    } else if c == '\t' {
        seq!['\\', 't']
    } else if (c as u32) < 0x20 {
        seq!['\\', 'u', '0', '0', hex_digit((c as u32) as int / 16), hex_digit((c as u32) as int % 16)]
    } else {
        seq![c]
    }
}

/// The characters of `text`, each as it stands inside a JSON string.
pub open spec fn escaped(text: Seq<char>) -> Seq<char>
    decreases text.len(),
{
    if text.len() == 0 {
        Seq::empty()
    } else {
        escaped(text.drop_last()) + escaped_char(text.last())
    }
}

/// The JSON string that holds `text`: its characters, escaped where JSON
/// asks for it, between double quotes.
pub open spec fn json_string_literal(text: Seq<char>) -> Seq<char> {
    seq!['"'] + escaped(text) + seq!['"']
}

/// Writes `text` as a JSON string with `serde_json::to_string`. The result
/// is the text between double quotes, escaped as `serde_json`'s escape table
/// has it, which [`json_string_literal`] states. Writing a string into
/// memory does not fail.
#[verifier::external_body]
pub(crate) fn quote_json(text: &str) -> (quoted: String)
    ensures
        quoted@ == json_string_literal(text@),
{
    serde_json::to_string(text).unwrap_or_default()
}

/// Text without a character that needs an escape is written as it is,
/// between double quotes.
pub proof fn lemma_plain_text_is_quoted_as_it_is(text: Seq<char>)
    requires
        forall|i: int| 0 <= i < text.len() ==> !needs_escape(#[trigger] text[i]),
    ensures
        json_string_literal(text) == seq!['"'] + text + seq!['"'],
{
    lemma_plain_text_is_not_escaped(text);
}

/// Text without a character that needs an escape is not changed by
/// escaping.
pub proof fn lemma_plain_text_is_not_escaped(text: Seq<char>)
    requires
        forall|i: int| 0 <= i < text.len() ==> !needs_escape(#[trigger] text[i]),
    ensures
        escaped(text) == text,
    decreases text.len(),
{
    if text.len() > 0 {
        let before = text.drop_last();
        assert forall|i: int| 0 <= i < before.len() implies !needs_escape(
            #[trigger] before[i],
        ) by {
            assert(before[i] == text[i]);
        }
        lemma_plain_text_is_not_escaped(before);
        assert(!needs_escape(text.last()));
        assert(escaped_char(text.last()) == seq![text.last()]);
        assert(before + seq![text.last()] == text);
    }
}

/// A JSON string never holds the zero character, whatever text it holds:
/// the zero character is written as an escape.
pub proof fn lemma_literal_holds_no_zero(text: Seq<char>)
    ensures
        forall|i: int|
            0 <= i < json_string_literal(text).len() ==> (
            #[trigger] json_string_literal(text)[i]) != '\0',
{
    lemma_escaped_holds_no_zero(text);
}

/// Escaped text never holds the zero character.
pub proof fn lemma_escaped_holds_no_zero(text: Seq<char>)
    ensures
        forall|i: int| 0 <= i < escaped(text).len() ==> (#[trigger] escaped(text)[i]) != '\0',
    decreases text.len(),
{
    if text.len() > 0 {
        lemma_escaped_holds_no_zero(text.drop_last());
        let c = text.last();
        let d1 = (c as u32) as int / 16;
        let d2 = (c as u32) as int % 16;
        assert(hex_digit(d1) != '\0' && hex_digit(d2) != '\0');
        assert(forall|k: int| 0 <= k < escaped_char(c).len() ==> escaped_char(c)[k] != '\0');
        let before = escaped(text.drop_last());
        assert forall|i: int| 0 <= i < escaped(text).len() implies (#[trigger] escaped(text)[i])
            != '\0' by {
            if i < before.len() {
                assert(escaped(text)[i] == before[i]);
            } else {
                assert(escaped(text)[i] == escaped_char(c)[i - before.len()]);
            }
        }
    }
}

/// The value of the first member named `key`, if `members` has one.
pub open spec fn member_of(members: Seq<(Seq<char>, JsonValue)>, key: Seq<char>) -> Option<JsonValue>
    decreases members.len(),
{
    if members.len() == 0 {
        None
    } else if members[0].0 == key {
        Some(members[0].1)
    } else {
        member_of(members.drop_first(), key)
    }
}

impl JsonValue {
    /// The member named `key` of an object; `None` for any other value.
    pub open spec fn member(self, key: Seq<char>) -> Option<JsonValue> {
        match self {
            JsonValue::Object(members) => member_of(members, key),
            _ => None,
        }
    }
}

/// What the view of an object holds: one pair for each member, in order.
pub proof fn lemma_object_view(members: Vec<(String, Json)>)
    ensures
        Json::Object(members)@ is Object,
        Json::Object(members)@->Object_0.len() == members@.len(),
        forall|k: int|
            0 <= k < members@.len() ==> (#[trigger] Json::Object(members)@->Object_0[k]) == (
                members@[k].0@,
                members@[k].1@,
            ),
{
}

impl Json {
    /// Reads JSON text; `None` where the bytes are not one JSON value.
    pub fn parse(text: &[u8]) -> (parsed: Option<Json>)
        ensures
            match parsed {
                Some(value) => json_of_text(text@) == Some(value@),
                None => json_of_text(text@) is None,
            },
    {
        parse_json(text)
    }

    /// The JSON string that holds `text`.
    pub fn string(text: &str) -> (value: Json)
        ensures
            value@ == JsonValue::Str(text@),
    {
        Json::Str(String::from_str(text))
    }

    /// An object with one member.
    pub fn object1(key: &str, value: Json) -> (object: Json)
        ensures
            object@ == JsonValue::Object(seq![(key@, value@)]),
    {
        let mut members: Vec<(String, Json)> = Vec::new();
        members.push((String::from_str(key), value));
        proof {
            lemma_object_view(members);
            assert(Json::Object(members)@->Object_0 =~= seq![(key@, value@)]);
        }
        Json::Object(members)
    }

    /// The object `self` with one more member at its end. A value that is no
    /// object becomes an object with that member alone.
    pub fn with_member(self, key: &str, value: Json) -> (object: Json)
        ensures
            object@ == JsonValue::Object(
                match self@ {
                    JsonValue::Object(ms) => ms.push((key@, value@)),
                    _ => seq![(key@, value@)],
                },
            ),
    {
        match self {
            Json::Object(members) => {
                let mut members = members;
                let ghost before = members;
                members.push((String::from_str(key), value));
                proof {
                    lemma_object_view(before);
                    lemma_object_view(members);
                    assert(Json::Object(members)@->Object_0 =~= Json::Object(before)@->Object_0.push(
                        (key@, value@),
                    ));
                }
                Json::Object(members)
            },
            _ => Json::object1(key, value),
        }
    }

    /// The text of a JSON string; `None` for any other value.
    pub fn as_str(&self) -> (text: Option<&str>)
        ensures
            match text {
                Some(t) => self@ == JsonValue::Str(t@),
                None => !(self@ is Str),
            },
    {
        match self {
            Json::Str(s) => Some(s.as_str()),
            _ => None,
        }
    }

    /// The member named `key` of an object; `None` where there is none, or for
    /// a value that is no object.
    pub fn get(&self, key: &str) -> (found: Option<&Json>)
        ensures
            match found {
                Some(member) => self@.member(key@) == Some(member@),
                None => self@.member(key@) is None,
            },
    {
        match self {
            Json::Object(members) => {
                let ghost ms = self@->Object_0;
                proof {
                    lemma_object_view(*members);
                    assert(ms.skip(0) == ms);
                }
                let mut i: usize = 0;
                while i < members.len()
                    invariant
                        i <= members@.len(),
                        self@ == JsonValue::Object(ms),
                        ms.len() == members@.len(),
                        forall|k: int|
                            0 <= k < ms.len() ==> ms[k] == (members@[k].0@, members@[k].1@),
                        member_of(ms, key@) == member_of(ms.skip(i as int), key@),
                    decreases members@.len() - i,
                {
                    assert(ms.skip(i as int).drop_first() == ms.skip(i + 1));
                    if str_eq(members[i].0.as_str(), key) {
                        return Some(&members[i].1);
                    }
                    i += 1;
                }
                None
            },
            _ => None,
        }
    }
}

} // verus!
