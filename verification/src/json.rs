//! JSON handled through `serde_json`: quoting text as a JSON string,
//! parsing response bodies and reading strings out of them.

use vstd::prelude::*;
use crate::text::opt_text;

verus! {

#[verifier::external_type_specification]
#[verifier::external_body]
pub struct ExJsonValue(serde_json::Value);

#[verifier::external_type_specification]
#[verifier::external_body]
pub struct ExJsonError(serde_json::Error);

/// The lower-case hexadecimal digit of `d` (`d < 16`).
pub open spec fn hex_digit(d: int) -> char {
    if d < 10 {
        (d + 48) as char
    } else {
        (d + 87) as char
    }
}

/// How `serde_json` writes one character inside a JSON string: `"` and `\`
/// and the control characters below U+0020 are escaped (`\b`, `\t`, `\n`,
/// `\f`, `\r` by name, the others as `\u00XX` in lower-case hex); every other
/// character stands as it is.
pub open spec fn json_escape_char(c: char) -> Seq<char> {
    if c == '"' {
        seq!['\\', '"']
    } else if c == '\\' {
        seq!['\\', '\\']
    } else if c == '\u{8}' {
        seq!['\\', 'b']
    } else if c == '\t' {
        seq!['\\', 't']
    } else if c == '\n' {
        seq!['\\', 'n']
    } else if c == '\u{c}' {
        seq!['\\', 'f']
    } else if c == '\r' {
        seq!['\\', 'r']
    } else if (c as int) < 0x20 {
        seq!['\\', 'u', '0', '0', hex_digit((c as int) / 16), hex_digit((c as int) % 16)]
    } else {
        seq![c]
    }
}

/// The escaped form of every character of `s`, in order.
pub open spec fn json_escape(s: Seq<char>) -> Seq<char>
    decreases s.len(),
{
    if s.len() == 0 {
        Seq::empty()
    } else {
        json_escape(s.drop_last()) + json_escape_char(s.last())
    }
}

/// `s` written as a JSON string literal.
pub open spec fn json_quoted(s: Seq<char>) -> Seq<char> {
    seq!['"'] + json_escape(s) + seq!['"']
}

/// The value of a lower-case hexadecimal digit.
pub open spec fn hex_value(c: char) -> int {
    if '0' <= c && c <= '9' {
        (c as int) - 48
    } else {
        (c as int) - 87
    }
}

/// The character a named JSON escape `\e` stands for.
pub open spec fn unescape_named(e: char) -> char {
    if e == 'b' {
        '\u{8}'
    } else if e == 't' {
        '\t'
    } else if e == 'n' {
        '\n'
    } else if e == 'f' {
        '\u{c}'
    } else if e == 'r' {
        '\r'
    } else {
        e
    }
}

/// The characters that the contents `t` of a JSON string literal stand for:
/// `\uXXXX` gives the character with that hexadecimal code, `\e` the named
/// escape, any other character itself.
pub open spec fn json_unescape(t: Seq<char>) -> Seq<char>
    decreases t.len(),
{
    if t.len() == 0 {
        Seq::empty()
    } else if t[0] == '\\' && t.len() >= 6 && t[1] == 'u' {
        seq![
            (hex_value(t[2]) * 4096 + hex_value(t[3]) * 256 + hex_value(t[4]) * 16 + hex_value(
                t[5],
            )) as char,
        ] + json_unescape(t.subrange(6, t.len() as int))
    } else if t[0] == '\\' && t.len() >= 2 {
        seq![unescape_named(t[1])] + json_unescape(t.subrange(2, t.len() as int))
    } else {
        seq![t[0]] + json_unescape(t.drop_first())
    }
}

/// The text that a JSON string literal `q` (quotes included) stands for.
pub open spec fn json_string_value(q: Seq<char>) -> Seq<char> {
    json_unescape(q.subrange(1, q.len() - 1))
}

proof fn lemma_hex_roundtrip(d: int)
    requires
        0 <= d < 16,
    ensures
        hex_value(hex_digit(d)) == d,
        hex_digit(d) != '\\',
{
}

/// Escaping a text is escaping its first character, then the rest.
proof fn lemma_escape_front(c: char, s: Seq<char>)
    ensures
        json_escape(seq![c] + s) == json_escape_char(c) + json_escape(s),
    decreases s.len(),
{
    if s.len() == 0 {
        let t = seq![c] + s;
        assert(t.drop_last() =~= Seq::<char>::empty());
        assert(t.last() == c);
        assert(json_escape(t.drop_last()) =~= Seq::<char>::empty());
        assert(Seq::<char>::empty() + json_escape_char(c) =~= json_escape_char(c));
        assert(json_escape(s) =~= Seq::<char>::empty());
    } else {
        assert((seq![c] + s).drop_last() =~= seq![c] + s.drop_last());
        lemma_escape_front(c, s.drop_last());
        assert(json_escape_char(c) + json_escape(s.drop_last()) + json_escape_char(s.last())
            =~= json_escape_char(c) + json_escape(s));
    }
}

/// Decoding an escaped character followed by more text gives the character,
/// then the decoding of the rest.
proof fn lemma_unescape_char(c: char, rest: Seq<char>)
    ensures
        json_unescape(json_escape_char(c) + rest) == seq![c] + json_unescape(rest),
{
    let t = json_escape_char(c) + rest;
    if c == '"' || c == '\\' || c == '\u{8}' || c == '\t' || c == '\n' || c == '\u{c}' || c
        == '\r' {
        assert(t.subrange(2, t.len() as int) =~= rest);
    } else if (c as int) < 0x20 {
        lemma_hex_roundtrip((c as int) / 16);
        lemma_hex_roundtrip((c as int) % 16);
        assert(t.subrange(6, t.len() as int) =~= rest);
        assert(hex_value(t[2]) == 0);
        assert(hex_value(t[3]) == 0);
        assert(hex_value(t[4]) == (c as int) / 16);
        assert(hex_value(t[5]) == (c as int) % 16);
        assert(0 * 4096 + 0 * 256 + ((c as int) / 16) * 16 + (c as int) % 16 == c as int);
    } else {
        assert(t.drop_first() =~= rest);
    }
}

/// Decoding what `json_escape` wrote gives back the text.
pub proof fn lemma_unescape_escape(s: Seq<char>)
    ensures
        json_unescape(json_escape(s)) == s,
    decreases s.len(),
{
    if s.len() > 0 {
        let c = s[0];
        let rest = s.drop_first();
        assert(s =~= seq![c] + rest);
        lemma_escape_front(c, rest);
        lemma_unescape_char(c, json_escape(rest));
        lemma_unescape_escape(rest);
    }
}

/// A text written as a JSON string literal stands for that very text:
/// nothing of it is lost or changed.
pub proof fn json_quoted_value(s: Seq<char>)
    ensures
        json_string_value(json_quoted(s)) == s,
{
    let q = json_quoted(s);
    assert(q.subrange(1, q.len() - 1) =~= json_escape(s));
    lemma_unescape_escape(s);
}

/// Different texts give different JSON string literals.
pub proof fn json_quoted_injective(a: Seq<char>, b: Seq<char>)
    requires
        json_quoted(a) == json_quoted(b),
    ensures
        a == b,
{
    json_quoted_value(a);
    json_quoted_value(b);
}

/// `serde_json::to_string` on a `&str`: the text as a JSON string literal.
/// Serialising a string cannot fail (it writes into a `Vec<u8>`), so the
/// error arm is never taken.
#[verifier::external_body]
pub(crate) fn json_string_literal(s: &str) -> (r: String)
    ensures
        r@ == json_quoted(s@),
{
    match serde_json::to_string(s) {
        Ok(t) => t,
        Err(_) => String::new(),
    }
}

/// Whether `serde_json::from_slice::<Value>` accepts `bytes`.
pub uninterp spec fn json_parses(bytes: Seq<u8>) -> bool;

/// Whether `Value::pointer(pointer)` finds a value in the document that
/// `serde_json` parses from `bytes` (the bytes are how a document is named).
pub uninterp spec fn json_pointer_finds(bytes: Seq<u8>, pointer: Seq<char>) -> bool;

/// Whether `Value::get(key)` finds a member in the document that
/// `serde_json` parses from `bytes`.
pub uninterp spec fn json_key_finds(bytes: Seq<u8>, key: Seq<char>) -> bool;

/// What `Value::as_str` gives for the value that `get(place)` (when
/// `by_key`) or `pointer(place)` (otherwise) reached in the document that
/// `serde_json` parses from `bytes`.
pub uninterp spec fn json_node_text(bytes: Seq<u8>, by_key: bool, place: Seq<char>) -> Option<
    Seq<char>,
>;

/// A parsed JSON document, with the bytes it was parsed from. Only the
/// trusted `JsonDoc::parse` below builds one, from the `Value` that
/// `serde_json` parsed out of exactly those bytes; no verified code can
/// write its fields.
pub struct JsonDoc {
    value: serde_json::Value,
    source: Ghost<Seq<u8>>,
}

/// A value inside a `JsonDoc`, with how it was reached. Only the trusted
/// `JsonDoc::pointer` and `JsonDoc::get` below build one, from the value that
/// the lookup they record returned; no verified code can write its fields.
pub struct JsonNode<'a> {
    value: &'a serde_json::Value,
    source: Ghost<Seq<u8>>,
    by_key: Ghost<bool>,
    place: Ghost<Seq<char>>,
}

impl JsonDoc {
    /// The bytes the document was parsed from.
    pub closed spec fn source(&self) -> Seq<u8> {
        self.source@
    }

    /// `serde_json::from_slice` into a `Value`: `Some` exactly when `serde_json`
    /// accepts the bytes (named, not spelled out), holding the parsed value
    /// together with the bytes.
    #[verifier::external_body]
    pub fn parse(bytes: &[u8]) -> (r: Option<JsonDoc>)
        ensures
            r is Some <==> json_parses(bytes@),
            r matches Some(d) ==> d.source() == bytes@,
    {
        match serde_json::from_slice(bytes) {
            Ok(value) => Some(JsonDoc { value, source: Ghost(bytes@) }),
            Err(_) => None,
        }
    }

    /// `Value::pointer`: the value at the JSON pointer `pointer`, if there is
    /// one (whether there is is named), recorded with how it was reached.
    #[verifier::external_body]
    pub fn pointer<'a>(&'a self, pointer: &str) -> (r: Option<JsonNode<'a>>)
        ensures
            r is Some <==> json_pointer_finds(self.source(), pointer@),
            r matches Some(n) ==> n.source() == self.source() && !n.by_key() && n.place()
                == pointer@,
    {
        match self.value.pointer(pointer) {
            Some(v) => Some(
                JsonNode {
                    value: v,
                    source: Ghost(self.source()),
                    by_key: Ghost(false),
                    place: Ghost(pointer@),
                },
            ),
            None => None,
        }
    }

    /// `Value::get` with a string key: the member `key` of the top-level
    /// object, if there is one (whether there is is named), recorded with how
    /// it was reached.
    #[verifier::external_body]
    pub fn get<'a>(&'a self, key: &str) -> (r: Option<JsonNode<'a>>)
        ensures
            r is Some <==> json_key_finds(self.source(), key@),
            r matches Some(n) ==> n.source() == self.source() && n.by_key() && n.place() == key@,
    {
        match self.value.get(key) {
            Some(v) => Some(
                JsonNode {
                    value: v,
                    source: Ghost(self.source()),
                    by_key: Ghost(true),
                    place: Ghost(key@),
                },
            ),
            None => None,
        }
    }
}

impl<'a> JsonNode<'a> {
    /// The bytes of the document the value belongs to.
    pub closed spec fn source(&self) -> Seq<u8> {
        self.source@
    }

    /// Whether the value was reached by a key rather than a pointer.
    pub closed spec fn by_key(&self) -> bool {
        self.by_key@
    }

    /// The key or pointer that reached the value.
    pub closed spec fn place(&self) -> Seq<char> {
        self.place@
    }

    /// `Value::as_str`: the value's text when it is a JSON string, else
    /// `None` (named).
    #[verifier::external_body]
    pub fn as_str(&self) -> (r: Option<&'a str>)
        ensures
            opt_text(r) == json_node_text(self.source(), self.by_key(), self.place()),
    {
        self.value.as_str()
    }
}

} // verus!
