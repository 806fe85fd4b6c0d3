//! A JSON document as a plain value, and the lookups that the decoders of
//! the remote answers are made of.

use crate::text::same_text;
use vstd::prelude::*;

verus! {

/// A JSON value. An object keeps its members in the order in which the
/// parser hands them out; a number is kept as the text that writes it.
#[derive(Debug, PartialEq, Eq)]
pub enum Json {
    Null,
    Bool(bool),
    Number(String),
    Str(String),
    Array(Vec<Json>),
    Object(Vec<(String, Json)>),
}

/// The value of the first member of `entries` whose key is `key`.
pub open spec fn first_with_key(entries: Seq<(String, Json)>, key: Seq<char>) -> Option<Json>
    decreases entries.len(),
{
    if entries.len() == 0 {
        None
    } else if entries[0].0@ == key {
        Some(entries[0].1)
    } else {
        first_with_key(entries.drop_first(), key)
    }
}

/// What `first_with_key` gives once the members before `i` are known not to
/// have the key.
pub proof fn lemma_first_with_key_skip(entries: Seq<(String, Json)>, key: Seq<char>, i: int)
    requires
        0 <= i <= entries.len(),
        forall|k: int| 0 <= k < i ==> entries[k].0@ != key,
    ensures
        first_with_key(entries, key) == first_with_key(
            entries.subrange(i, entries.len() as int),
            key,
        ),
    decreases i,
{
    if i == 0 {
        assert(entries.subrange(0, entries.len() as int) =~= entries);
    } else {
        let rest = entries.drop_first();
        assert forall|k: int| 0 <= k < i - 1 implies rest[k].0@ != key by {
            assert(rest[k] == entries[k + 1]);
        }
        lemma_first_with_key_skip(rest, key, i - 1);
        assert(rest.subrange(i - 1, rest.len() as int) =~= entries.subrange(
            i,
            entries.len() as int,
        ));
    }
}

/// `serde_json::Value`, a JSON document as the parser builds it.
#[verifier::external_type_specification]
#[verifier::external_body]
pub struct ExJsonValue(serde_json::Value);

/// The document that the JSON text `text` writes, with the members of each
/// object in the order in which the parser lists them; `None` where `text` is
/// not one JSON value.
pub uninterp spec fn parsed_json(text: Seq<char>) -> Option<Json>;

/// Copies a parsed document into a `Json`, variant by variant.
///
/// Walks a `serde_json::Value`: scalars are moved over, a number as the text
/// that `serde_json` prints for it, arrays and objects element by element in
/// the order in which `serde_json` iterates them.
#[verifier::external_body]
fn json_of_value(value: &serde_json::Value) -> Json {
    match value {
        serde_json::Value::Null => Json::Null,
        serde_json::Value::Bool(b) => Json::Bool(*b),
        serde_json::Value::Number(n) => Json::Number(n.to_string()),
        serde_json::Value::String(s) => Json::Str(s.clone()),
        serde_json::Value::Array(a) => Json::Array(a.iter().map(json_of_value).collect()),
        serde_json::Value::Object(m) => {
            Json::Object(m.iter().map(|(k, v)| (k.clone(), json_of_value(v))).collect())
        },
    }
}

/// Parses JSON text.
///
/// Calls `serde_json::from_str` for a `serde_json::Value`, which fails on
/// text that is not one JSON value. The result depends on the text alone and
/// stands here under the name `parsed_json`.
#[verifier::external_body]
fn parse_json_text(text: &str) -> (out: Option<Json>)
    ensures
        out == parsed_json(text@),
{
    match serde_json::from_str::<serde_json::Value>(text) {
        Ok(value) => Some(json_of_value(&value)),
        Err(_) => None,
    }
}

/// The sixteen hexadecimal digits, lower case.
pub open spec fn lower_hex_digits() -> Seq<char> {
    seq!['0', '1', '2', '3', '4', '5', '6', '7', '8', '9', 'a', 'b', 'c', 'd', 'e', 'f']
}

/// How one character stands inside a JSON string: the quotation mark, the
/// backslash and the control characters are escaped, the rest stand for
/// themselves.
pub open spec fn json_escaped_char(c: char) -> Seq<char> {
    if c == '"' {
        seq!['\\', '"']
    } else if c == '\\' {
        seq!['\\', '\\']
    } else if c == '\u{8}' {
        seq!['\\', 'b']
    } else if c == '\t' {
        seq!['\\', 't']
    } else if c == '\n' {
        seq!['\\', 'n']
    } else if c == '\u{c}' {
        seq!['\\', 'f']
    } else if c == '\r' {
        seq!['\\', 'r']
    } else if (c as u32) < 0x20 {
        seq![
            '\\',
            'u',
            '0',
            '0',
            lower_hex_digits()[(c as u32) as int / 16],
            lower_hex_digits()[(c as u32) as int % 16],
        ]
    } else {
        seq![c]
    }
}

/// The characters of `s`, each as it stands inside a JSON string.
pub open spec fn json_escaped(s: Seq<char>) -> Seq<char>
    decreases s.len(),
{
    if s.len() == 0 {
        Seq::empty()
    } else {
        json_escaped(s.drop_last()) + json_escaped_char(s.last())
    }
}

/// The JSON string that writes the text `s`: the escaped characters between
/// two quotation marks.
pub open spec fn json_string_literal(s: Seq<char>) -> Seq<char> {
    seq!['"'] + json_escaped(s) + seq!['"']
}

/// Writes `s` as a JSON string.
///
/// Prints a `serde_json::Value::String` through its `Display`, which gives
/// compact JSON: the text between quotation marks, with `"` and `\` behind a
/// backslash, backspace, tab, line feed, form feed and carriage return as
/// `\b`, `\t`, `\n`, `\f`, `\r`, and every other character below U+0020 as
/// `\u00` and two lower-case hexadecimal digits.
#[verifier::external_body]
pub(crate) fn json_quote(s: &str) -> (out: String)
    ensures
        out@ == json_string_literal(s@),
{
    serde_json::Value::String(s.to_string()).to_string()
}

impl Json {
    /// Parses JSON text; `None` where `text` is not one JSON value.
    pub fn parse(text: &str) -> (out: Option<Json>)
        ensures
            out == parsed_json(text@),
    {
        parse_json_text(text)
    }

    /// The member `key` of an object; `None` for anything but an object and
    /// for an object without that member.
    pub open spec fn member(self, key: Seq<char>) -> Option<Json> {
        match self {
            Json::Object(entries) => first_with_key(entries@, key),
            _ => None,
        }
    }

    /// The member `b` of the member `a`.
    pub open spec fn member2(self, a: Seq<char>, b: Seq<char>) -> Option<Json> {
        match self.member(a) {
            Some(inner) => inner.member(b),
            None => None,
        }
    }

    /// The element `i` of an array; `None` for anything but an array and for
    /// an index past its end.
    pub open spec fn element(self, i: int) -> Option<Json> {
        match self {
            Json::Array(items) => if 0 <= i < items@.len() {
                Some(items@[i])
            } else {
                None
            },
            _ => None,
        }
    }

    /// The text of a string value.
    pub open spec fn text(self) -> Option<String> {
        match self {
            Json::Str(s) => Some(s),
            _ => None,
        }
    }

    /// The members of an object, in order.
    pub open spec fn members(self) -> Option<Seq<(String, Json)>> {
        match self {
            Json::Object(entries) => Some(entries@),
            _ => None,
        }
    }

    /// The elements of an array, in order.
    pub open spec fn elements(self) -> Option<Seq<Json>> {
        match self {
            Json::Array(items) => Some(items@),
            _ => None,
        }
    }

    /// The text of the string member `key`.
    pub open spec fn text_at(self, key: Seq<char>) -> Option<String> {
        match self.member(key) {
            Some(v) => v.text(),
            None => None,
        }
    }

    /// The text of the string member `b` of the member `a`.
    pub open spec fn text_at2(self, a: Seq<char>, b: Seq<char>) -> Option<String> {
        match self.member2(a, b) {
            Some(v) => v.text(),
            None => None,
        }
    }

    /// Looks up the member `key` of an object.
    pub fn get(&self, key: &str) -> (out: Option<&Json>)
        ensures
            out is Some == self.member(key@) is Some,
            out matches Some(j) ==> self.member(key@) == Some(*j),
    {
        match self {
            Json::Object(entries) => {
                let mut i: usize = 0;
                while i < entries.len()
                    invariant
                        i <= entries.len(),
                        self.member(key@) == first_with_key(entries@, key@),
                        forall|k: int| 0 <= k < i ==> entries@[k].0@ != key@,
                    decreases entries.len() - i,
                {
                    proof {
                        lemma_first_with_key_skip(entries@, key@, i as int);
                        let rest = entries@.subrange(i as int, entries@.len() as int);
                        assert(rest[0] == entries@[i as int]);
                    }
                    if same_text(entries[i].0.as_str(), key) {
                        return Some(&entries[i].1);
                    }
                    i += 1;
                }
                proof {
                    lemma_first_with_key_skip(entries@, key@, i as int);
                }
                None
            },
            _ => None,
        }
    }

    /// Looks up the member `b` of the member `a`.
    pub fn get2(&self, a: &str, b: &str) -> (out: Option<&Json>)
        ensures
            out is Some == self.member2(a@, b@) is Some,
            out matches Some(j) ==> self.member2(a@, b@) == Some(*j),
    {
        match self.get(a) {
            Some(inner) => inner.get(b),
            None => None,
        }
    }

    /// The text of the string member `key`.
    pub fn get_str(&self, key: &str) -> (out: Option<&String>)
        ensures
            out is Some == self.text_at(key@) is Some,
            out matches Some(s) ==> self.text_at(key@) == Some(*s),
    {
        match self.get(key) {
            Some(v) => v.as_str(),
            None => None,
        }
    }

    /// The text of the string member `b` of the member `a`.
    pub fn get_str2(&self, a: &str, b: &str) -> (out: Option<&String>)
        ensures
            out is Some == self.text_at2(a@, b@) is Some,
            out matches Some(s) ==> self.text_at2(a@, b@) == Some(*s),
    {
        match self.get2(a, b) {
            Some(v) => v.as_str(),
            None => None,
        }
    }

    /// The element `i` of an array.
    pub fn at(&self, i: usize) -> (out: Option<&Json>)
        ensures
            out is Some == self.element(i as int) is Some,
            out matches Some(j) ==> self.element(i as int) == Some(*j),
    {
        match self {
            Json::Array(items) => if i < items.len() {
                Some(&items[i])
            } else {
                None
            },
            _ => None,
        }
    }

    /// The text of a string value; `None` for any other value.
    pub fn as_str(&self) -> (out: Option<&String>)
        ensures
            out is Some == self.text() is Some,
            out matches Some(s) ==> self.text() == Some(*s),
    {
        match self {
            Json::Str(s) => Some(s),
            _ => None,
        }
    }

    /// The members of an object; `None` for any other value.
    pub fn as_object(&self) -> (out: Option<&Vec<(String, Json)>>)
        ensures
            out is Some == self.members() is Some,
            out matches Some(m) ==> self.members() == Some(m@),
    {
        match self {
            Json::Object(entries) => Some(entries),
            _ => None,
        }
    }

    /// The elements of an array; `None` for any other value.
    pub fn as_array(&self) -> (out: Option<&Vec<Json>>)
        ensures
            out is Some == self.elements() is Some,
            out matches Some(a) ==> self.elements() == Some(a@),
    {
        match self {
            Json::Array(items) => Some(items),
            _ => None,
        }
    }

    /// Whether the value is an array.
    pub fn is_array(&self) -> (out: bool)
        ensures
            out == self.elements() is Some,
    {
        match self {
            Json::Array(_) => true,
            _ => false,
        }
    }
}

} // verus!
