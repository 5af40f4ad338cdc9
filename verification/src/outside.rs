//! The calls that this library makes into other crates, with the contracts
//! that the rest of the library relies on.
use vstd::prelude::*;

verus! {

#[verifier::external_type_specification]
#[verifier::external_body]
pub struct ExUrlParseError(url::ParseError);

#[verifier::external_type_specification]
#[verifier::external_body]
pub struct ExRegexError(regex::Error);

#[verifier::external_type_specification]
#[verifier::external_body]
pub struct ExJsonError(serde_json::Error);

/// A lowercase hexadecimal digit.
pub open spec fn hex_digit(n: int) -> char {
    if n < 10 {
        (48 + n) as char
    } else {
        (87 + n) as char
    }
}

/// How a JSON string literal writes one character: `"` and `\` behind a
/// backslash; backspace, tab, line feed, form feed and carriage return as
/// `\b`, `\t`, `\n`, `\f`, `\r`; any other control character below U+0020
/// as `\u00` and two lowercase hex digits; every other character as itself.
pub open spec fn json_escape_char(c: char) -> Seq<char> {
    if c == '"' {
        seq!['\\', '"']
    } else if c == '\\' {
        seq!['\\', '\\']
    } else if c == '\u{8}' {
        seq!['\\', 'b']
    } else if c == '\t' {
        seq!['\\', 't']
    } else if c == '\n' {
        seq!['\\', 'n']
    } else if c == '\u{c}' {
        seq!['\\', 'f']
    } else if c == '\r' {
        seq!['\\', 'r']
    } else if (c as int) < 32 {
        seq!['\\', 'u', '0', '0', hex_digit((c as int) / 16), hex_digit((c as int) % 16)]
    } else {
        seq![c]
    }
}

/// The characters of a text, each written as in a JSON string literal.
pub open spec fn json_escape(text: Seq<char>) -> Seq<char>
    decreases text.len(),
{
    if text.len() == 0 {
        Seq::empty()
    } else {
        json_escape_char(text[0]) + json_escape(text.drop_first())
    }
}

/// What `serde_json::to_string` gives for a string: the text between double
/// quotes, each character written as `json_escape_char` says.
pub open spec fn json_string(text: Seq<char>) -> Seq<char> {
    seq!['"'] + json_escape(text) + seq!['"']
}

/// Whether `url::Url::parse` accepts the text as an absolute URL.
pub uninterp spec fn url_parses(text: Seq<char>) -> bool;

/// What `url::Url::host_str` gives for the URL that `url::Url::parse`
/// makes of the text.
pub uninterp spec fn url_host(text: Seq<char>) -> Option<Seq<char>>;

/// Whether `regex::Regex::new` compiles the pattern.
pub uninterp spec fn regex_compiles(pattern: Seq<char>) -> bool;

/// What `regex::Regex::is_match` answers for the compiled pattern and the haystack.
pub uninterp spec fn regex_finds(pattern: Seq<char>, haystack: Seq<char>) -> bool;

/// What `str::to_lowercase` gives for the text.
pub uninterp spec fn lowercase(text: Seq<char>) -> Seq<char>;

/// Parses the text with `url::Url::parse` and returns the parsed URL's
/// `host_str`. Trusted: the parse succeeds exactly when `url_parses` holds,
/// and the host is `url_host` of the text; both are names for what the
/// `url` crate computes, which depends on the text alone.
#[verifier::external_body]
pub(crate) fn parse_url_host(text: &str) -> (r: Result<Option<String>, url::ParseError>)
    ensures
        r is Ok <==> url_parses(text@),
        r matches Ok(host) ==> match host {
            Some(h) => url_host(text@) == Some(h@),
            None => url_host(text@) is None,
        },
{
    match url::Url::parse(text) {
        Ok(parsed) => match parsed.host_str() {
            Some(h) => Ok(Some(h.to_string())),
            None => Ok(None),
        },
        Err(e) => Err(e),
    }
}

/// Compiles the pattern with `regex::Regex::new` and, when that succeeds,
/// asks `regex::Regex::is_match` about the haystack. Trusted: compiling
/// succeeds exactly when `regex_compiles` holds of the pattern, and the
/// answer is `regex_finds` of the pattern and the haystack.
#[verifier::external_body]
pub(crate) fn regex_is_match(pattern: &str, haystack: &str) -> (r: Result<bool, regex::Error>)
    ensures
        r is Ok <==> regex_compiles(pattern@),
        r matches Ok(found) ==> found == regex_finds(pattern@, haystack@),
{
    match regex::Regex::new(pattern) {
        Ok(re) => Ok(re.is_match(haystack)),
        Err(e) => Err(e),
    }
}

/// Lowercases the text with `str::to_lowercase`. Trusted: the result is
/// `lowercase` of the text, a name for what std computes from the text alone.
#[verifier::external_body]
pub(crate) fn to_lowercase(text: &str) -> (r: String)
    ensures
        r@ == lowercase(text@),
{
    text.to_lowercase()
}

/// Serializes the text as a JSON string literal with `serde_json::to_string`.
/// Trusted: the result is `json_string` of the text, the quoting and escaping
/// that `serde_json` applies to a string; serializing a string writes only
/// into an in-memory buffer, which cannot fail, so the result is `Ok`.
#[verifier::external_body]
pub(crate) fn json_quote(text: &str) -> (r: Result<String, serde_json::Error>)
    ensures
        r is Ok,
        r matches Ok(s) ==> s@ == json_string(text@),
{
    serde_json::to_string(text)
}

/// Writing a text as JSON writes its characters one after the other: the
/// writing of two joined texts is the writing of the first, then of the second.
pub proof fn law_json_escape_joins(a: Seq<char>, b: Seq<char>)
    ensures
        json_escape(a + b) == json_escape(a) + json_escape(b),
    decreases a.len(),
{
    if a.len() == 0 {
        assert(a + b =~= b);
        assert(json_escape(a) =~= Seq::<char>::empty());
        assert(json_escape(a) + json_escape(b) =~= json_escape(b));
    } else {
        assert((a + b).drop_first() =~= a.drop_first() + b);
        assert((a + b)[0] == a[0]);
        law_json_escape_joins(a.drop_first(), b);
        assert(json_escape(a + b) =~= json_escape(a) + json_escape(b));
    }
}

/// A text with no quote, backslash or control character is written as it
/// is, between double quotes.
pub proof fn law_json_plain_text_is_quoted(text: Seq<char>)
    requires
        forall|i: int| 0 <= i < text.len() ==> #[trigger] text[i] != '"' && text[i] != '\\' && (text[i] as int) >= 32,
    ensures
        json_string(text) == seq!['"'] + text + seq!['"'],
    decreases text.len(),
{
    lemma_json_plain(text);
}

proof fn lemma_json_plain(text: Seq<char>)
    requires
        forall|i: int| 0 <= i < text.len() ==> #[trigger] text[i] != '"' && text[i] != '\\' && (text[i] as int) >= 32,
    ensures
        json_escape(text) == text,
    decreases text.len(),
{
    if text.len() > 0 {
        let rest = text.drop_first();
        assert forall|i: int| 0 <= i < rest.len() implies #[trigger] rest[i] != '"' && rest[i] != '\\' && (rest[i] as int)
            >= 32 by {
            assert(rest[i] == text[i + 1]);
        }
        lemma_json_plain(rest);
        assert(text[0] != '"' && text[0] != '\\' && (text[0] as int) >= 32);
        assert(json_escape(text) =~= text);
    }
}

/// How each kind of character is written in a JSON string: a quote or a
/// backslash behind a backslash, the five named control characters by their
/// letter, every other control character as `\u00` and its two lowercase
/// hexadecimal digits, and any other character as itself.
pub proof fn law_json_character_escapes(c: char)
    ensures
        c == '"' ==> json_escape(seq![c]) == seq!['\\', '"'],
        c == '\\' ==> json_escape(seq![c]) == seq!['\\', '\\'],
        c == '\n' ==> json_escape(seq![c]) == seq!['\\', 'n'],
        c == '\r' ==> json_escape(seq![c]) == seq!['\\', 'r'],
        c == '\t' ==> json_escape(seq![c]) == seq!['\\', 't'],
        c == '\u{8}' ==> json_escape(seq![c]) == seq!['\\', 'b'],
        c == '\u{c}' ==> json_escape(seq![c]) == seq!['\\', 'f'],
        (c as int) < 32 && c != '\n' && c != '\r' && c != '\t' && c != '\u{8}' && c != '\u{c}' ==> json_escape(seq![c])
            == seq![
            '\\',
            'u',
            '0',
            '0',
            seq!['0', '1', '2', '3', '4', '5', '6', '7', '8', '9', 'a', 'b', 'c', 'd', 'e', 'f'][(c as int) / 16],
            seq!['0', '1', '2', '3', '4', '5', '6', '7', '8', '9', 'a', 'b', 'c', 'd', 'e', 'f'][(c as int) % 16],
        ],
        (c as int) >= 32 && c != '"' && c != '\\' ==> json_escape(seq![c]) == seq![c],
{
    let one = seq![c];
    assert(one.drop_first() =~= Seq::<char>::empty());
    assert(one[0] == c);
    assert(json_escape(Seq::<char>::empty()) =~= Seq::<char>::empty());
    assert(json_escape(one) == json_escape_char(c) + json_escape(one.drop_first()));
    assert(json_escape(one) =~= json_escape_char(c));
    let digits = seq!['0', '1', '2', '3', '4', '5', '6', '7', '8', '9', 'a', 'b', 'c', 'd', 'e', 'f'];
    if (c as int) < 32 {
        let hi = (c as int) / 16;
        let lo = (c as int) % 16;
        assert(0 <= hi < 2);
        assert(hex_digit(hi) == digits[hi]);
        assert(hex_digit(lo) == digits[lo]);
    }
}

} // verus!
