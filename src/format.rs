use vstd::prelude::*;

verus! {

/// The encoding of a query's result.
#[derive(Clone, Copy, Debug, PartialEq, Eq, Structural)]
pub enum FormatSpecifier {
    Json,
    Txt,
}

/// The encoding used when a request names none.
pub fn default_format() -> (r: FormatSpecifier)
    ensures
        r == FormatSpecifier::Txt,
{
    FormatSpecifier::Txt
}

impl Default for FormatSpecifier {
    fn default() -> (r: Self)
        ensures
            r == FormatSpecifier::Txt,
    {
        FormatSpecifier::Txt
    }
}

/// The requested output encoding of a query.
#[derive(Clone, Copy, Debug, PartialEq, Eq, Structural)]
pub struct Format {
    pub f: FormatSpecifier,
}

impl Format {
    /// Resolves an optional format request: an absent one means text.
    pub fn resolve(f: Option<FormatSpecifier>) -> (r: Format)
        ensures
            r.f == match f {
                Some(v) => v,
                None => FormatSpecifier::Txt,
            },
    {
        match f {
            Some(v) => Format { f: v },
            None => Format { f: default_format() },
        }
    }
}

impl Default for Format {
    fn default() -> (r: Self)
        ensures
            r.f == FormatSpecifier::Txt,
    {
        Format { f: default_format() }
    }
}

#[verifier::external_type_specification]
#[verifier::external_body]
pub struct ExJsonError(serde_json::Error);

/// The lower-case hexadecimal digit of `d`, for `d < 16`.
pub open spec fn hex_digit(d: int) -> char {
    seq!['0', '1', '2', '3', '4', '5', '6', '7', '8', '9', 'a', 'b', 'c', 'd', 'e', 'f'][d]
}

/// How one character is written inside a JSON string: `"` and `\` and the
/// control characters are escaped (the five with a short form by it, the rest
/// as `\u00xx`); every other character stands for itself.
pub open spec fn json_char_escape(c: char) -> Seq<char> {
    if c == '"' {
        seq!['\\', '"']
    } else if c == '\\' {
        seq!['\\', '\\']
    } else if c == '\u{8}' {
        seq!['\\', 'b']
    } else if c == '\t' {
        seq!['\\', 't']
    } else if c == '\n' {
        seq!['\\', 'n']
    } else if c == '\u{c}' {
        seq!['\\', 'f']
    } else if c == '\r' {
        seq!['\\', 'r']
    } else if (c as int) < 0x20 {
        seq!['\\', 'u', '0', '0', hex_digit(c as int / 16), hex_digit(c as int % 16)]
    } else {
        seq![c]
    }
}

/// The escaped contents of a JSON string holding `s`.
pub open spec fn json_escaped(s: Seq<char>) -> Seq<char>
    decreases s.len(),
{
    if s.len() == 0 {
        seq![]
    } else {
        json_escaped(s.drop_last()) + json_char_escape(s.last())
    }
}

/// The JSON string literal for `s`: its escaped contents between quotes.
pub open spec fn json_string_of(s: Seq<char>) -> Seq<char> {
    seq!['"'] + json_escaped(s) + seq!['"']
}

/// Relies on `serde_json::to_string` applied to a `&str`: it writes a quote,
/// the text with each character escaped by serde_json's escape table, and a
/// quote, into a `Vec`; writing a string into a `Vec` cannot fail.
#[verifier::external_body]
fn json_string(s: &str) -> (r: Result<String, serde_json::Error>)
    ensures
        r is Ok,
        r matches Ok(j) ==> j@ == json_string_of(s@),
{
    serde_json::to_string(s)
}

/// A JSON object with the single member `key: payload`, where `key` is
/// already a JSON string literal and `payload` a JSON value.
pub open spec fn keyed_object(key: Seq<char>, payload: Seq<char>) -> Seq<char> {
    seq!['{'] + key + seq![':'] + payload + seq!['}']
}

/// The text of an optional hint.
pub open spec fn hint_text(hint: Option<&str>) -> Option<Seq<char>> {
    match hint {
        Some(h) => Some(h@),
        None => None,
    }
}

/// What a result encodes to: its text rendering for `Txt`, its JSON
/// serialization for `Json`, wrapped under the hint when one is given.
pub open spec fn encoded(
    text: Seq<char>,
    json: Seq<char>,
    f: FormatSpecifier,
    hint: Option<Seq<char>>,
) -> Seq<char> {
    match f {
        FormatSpecifier::Txt => text,
        FormatSpecifier::Json => match hint {
            None => json,
            Some(h) => keyed_object(json_string_of(h), json),
        },
    }
}

/// Builds the JSON object `{key:payload}` from an encoded key and payload.
pub fn keyed_json(key: &str, payload: &str) -> (r: String)
    ensures
        r@ == keyed_object(key@, payload@),
{
    let mut r = String::from_str("{");
    r.append(key);
    r.append(":");
    r.append(payload);
    r.append("}");
    proof {
        reveal_strlit("{");
        reveal_strlit(":");
        reveal_strlit("}");
    }
    assert(r@ =~= keyed_object(key@, payload@));
    r
}

/// Encodes a result, given its text rendering and its JSON serialization.
///
/// Text is returned as it is; JSON is returned as it is without a hint and
/// wrapped in a one-member object keyed by the hint otherwise.
pub fn format_as(text: &str, json: &str, f: FormatSpecifier, hint: Option<&str>) -> (r: String)
    ensures
        r@ == encoded(text@, json@, f, hint_text(hint)),
{
    match f {
        FormatSpecifier::Txt => text.to_owned(),
        FormatSpecifier::Json => match hint {
            None => json.to_owned(),
            Some(h) => {
                let key = json_string(h).unwrap();
                keyed_json(key.as_str(), json)
            },
        },
    }
}

} // verus!
