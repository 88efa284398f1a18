//! JSON values that the bridge passes along, and the questions it asks of them.
use crate::text::optional_text;
use vstd::prelude::*;

verus! {

/// A JSON value, kept as its text.
#[derive(Debug)]
pub struct JsonText {
    pub text: String,
}

impl View for JsonText {
    type V = Seq<char>;

    open spec fn view(&self) -> Seq<char> {
        self.text@
    }
}

impl JsonText {
    pub fn new(text: &str) -> (json: JsonText)
        ensures
            json@ == text@,
            json.text@ == text@,
    {
        JsonText { text: text.to_owned() }
    }
}

impl Clone for JsonText {
    fn clone(&self) -> (json: JsonText)
        ensures
            json == *self,
    {
        JsonText { text: self.text.clone() }
    }
}

/// The character for a decimal digit.
pub open spec fn digit(d: nat) -> char {
    ('0' as u32 + d) as char
}

/// The decimal digits of `n`, without leading zeros.
pub open spec fn digits(n: nat) -> Seq<char>
    decreases n,
{
    if n < 10 {
        seq![digit(n)]
    } else {
        digits(n / 10).push(digit(n % 10))
    }
}

/// The integer `n` as JSON writes it.
pub open spec fn decimal(n: int) -> Seq<char> {
    if n < 0 {
        seq!['-'] + digits((-n) as nat)
    } else {
        digits(n as nat)
    }
}

/// The string `s` as JSON writes it, where no character of it needs an escape.
pub open spec fn quoted(s: Seq<char>) -> Seq<char> {
    seq!['"'] + s + seq!['"']
}

/// `s` is made of printable ASCII characters that stand for themselves in a JSON
/// string.
pub open spec fn is_plain_string(s: Seq<char>) -> bool {
    forall|i: int|
        0 <= i < s.len() ==> ' ' <= #[trigger] s[i] && s[i] <= '~' && s[i] != '"' && s[i] != '\\'
}

/// `word` is one of the words of JSON: `true`, `false` and `null`.
pub open spec fn is_json_word(word: Seq<char>) -> bool {
    ||| word == seq!['t', 'r', 'u', 'e']
    ||| word == seq!['f', 'a', 'l', 's', 'e']
    ||| word == seq!['n', 'u', 'l', 'l']
}

/// `json` begins like a string or a word of JSON.
pub open spec fn begins_like_text(json: Seq<char>) -> bool {
    json.len() > 0 && (json[0] == '"' || json[0] == 't' || json[0] == 'f' || json[0] == 'n')
}

/// `json` begins like an array or an object.
pub open spec fn begins_like_collection(json: Seq<char>) -> bool {
    json.len() > 0 && (json[0] == '[' || json[0] == '{')
}

/// `json` begins like a number.
pub open spec fn begins_like_number(json: Seq<char>) -> bool {
    json.len() > 0 && (json[0] == '-' || '0' <= json[0] && json[0] <= '9')
}

/// `json` is no object with members: it begins like something else, or it is the
/// empty object.
pub open spec fn has_no_members(json: Seq<char>) -> bool {
    ||| begins_like_text(json)
    ||| begins_like_number(json)
    ||| json.len() > 0 && json[0] == '['
    ||| json == seq!['{', '}']
}

/// An object with the one member `key`, with the value `value`, as JSON writes
/// it.
pub open spec fn one_member(key: Seq<char>, value: Seq<char>) -> Seq<char> {
    seq!['{', '"'] + key + seq!['"', ':'] + value + seq!['}']
}

/// `key` is made of small ASCII letters alone, so that it stands for itself in
/// JSON strings and in JSON Pointers.
pub open spec fn is_plain_key(key: Seq<char>) -> bool {
    forall|i: int| 0 <= i < key.len() ==> 'a' <= #[trigger] key[i] && key[i] <= 'z'
}

/// `value` is an `i64`, a string of plain characters or a word, as JSON writes
/// them.
pub open spec fn is_plain_value(value: Seq<char>) -> bool {
    ||| exists|n: i64| value == #[trigger] decimal(n as int)
    ||| exists|s: Seq<char>| is_plain_string(s) && value == #[trigger] quoted(s)
    ||| is_json_word(value)
}

/// The integer that the JSON text `json` denotes, if it denotes one that fits
/// in 64 signed bits.
pub uninterp spec fn json_integer(json: Seq<char>) -> Option<i64>;

/// `serde_json::Value::as_i64`, on the value that `json` parses to: a function
/// of the text alone. The decimal text of an `i64` gives that number, and a text
/// that begins like a string, a word, an array or an object gives none. Of other
/// texts, such as numbers with a fraction, nothing is said.
#[verifier::external_body]
pub(crate) fn as_i64(json: &str) -> (integer: Option<i64>)
    ensures
        integer == json_integer(json@),
        forall|n: i64| json@ == #[trigger] decimal(n as int) ==> integer == Some(n),
        begins_like_text(json@) || begins_like_collection(json@) ==> integer is None,
{
    serde_json::from_str::<serde_json::Value>(json).ok().and_then(|value| value.as_i64())
}

/// The text of the value that the JSON Pointer `path` addresses in the JSON text
/// `json`.
pub uninterp spec fn json_pointed(json: Seq<char>, path: Seq<char>) -> Option<Seq<char>>;

/// Where `json` is an object with one member, and `path` points to its key,
/// `found` is its value, if that is plain.
pub open spec fn finds_one_member(
    json: Seq<char>,
    path: Seq<char>,
    found: Option<Seq<char>>,
) -> bool {
    forall|key: Seq<char>, value: Seq<char>|
        is_plain_key(key) && is_plain_value(value) && json == #[trigger] one_member(key, value)
            && path == seq!['/'] + key ==> found == Some(value)
}

/// Where `json` has no members, and `path` points to a key, `found` is nothing.
pub open spec fn finds_no_member(
    json: Seq<char>,
    path: Seq<char>,
    found: Option<Seq<char>>,
) -> bool {
    has_no_members(json) ==> forall|key: Seq<char>|
        #[trigger] is_plain_key(key) && path == seq!['/'] + key ==> found is None
}

/// `serde_json::Value::pointer`, on the value that `json` parses to, with the
/// value found there written as text again: a function of the two texts alone.
/// The one member of an object is found under its key, where its value is plain.
/// Under a plain key nothing is found in a string, a word, a number, an array or
/// the empty object. Of other texts nothing is said.
#[verifier::external_body]
pub(crate) fn pointer(json: &str, path: &str) -> (found: Option<String>)
    ensures
        optional_text(found) == json_pointed(json@, path@),
        finds_one_member(json@, path@, optional_text(found)),
        finds_no_member(json@, path@, optional_text(found)),
{
    let value: serde_json::Value = serde_json::from_str(json).ok()?;
    value.pointer(path).map(|found| found.to_string())
}

/// Whether the JSON text `json` denotes the string `s`.
pub uninterp spec fn json_denotes_string(json: Seq<char>, s: Seq<char>) -> bool;

/// `==` on `serde_json::Value`, between the value that `json` parses to and the
/// JSON string `s`: a function of the two texts alone. The text of a string of
/// plain characters denotes that string and no other. A text that begins like a
/// number, an array or an object, or that is a word, denotes no string. Of other
/// texts nothing is said.
#[verifier::external_body]
pub(crate) fn denotes_string(json: &str, s: &str) -> (same: bool)
    ensures
        same == json_denotes_string(json@, s@),
        forall|t: Seq<char>|
            is_plain_string(t) && json@ == #[trigger] quoted(t) ==> same == (s@ == t),
        begins_like_number(json@) || begins_like_collection(json@) || is_json_word(json@)
            ==> !same,
{
    let value: Option<serde_json::Value> = serde_json::from_str(json).ok();
    value == Some(serde_json::Value::String(s.to_owned()))
}

} // verus!
