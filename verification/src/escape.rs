//! Escaping of free text before it is inserted into a node label or a
//! source link: HTML-entity escaping for the label markup, and
//! percent-encoding for the scroll-to-text fragment of a source URL.

use vstd::prelude::*;

verus! {

/// The HTML-entity replacement of a single character: `&`, `"`, `<` and `>`
/// become entities, every other character stands unchanged.
pub open spec fn escaped_char(c: char) -> Seq<char> {
    if c == '&' {
        "&amp;"@
    } else if c == '"' {
        "&quot;"@
    } else if c == '<' {
        "&lt;"@
    } else if c == '>' {
        "&gt;"@
    } else {
        seq![c]
    }
}

/// The HTML-entity escaping of a whole character sequence.
pub open spec fn html_escaped(s: Seq<char>) -> Seq<char>
    decreases s.len(),
{
    if s.len() == 0 {
        Seq::empty()
    } else {
        escaped_char(s[0]) + html_escaped(s.skip(1))
    }
}

/// Relies on dot::escape_html: it replaces every occurrence of `&` with
/// `&amp;`, then `"` with `&quot;`, then `<` with `&lt;`, then `>` with
/// `&gt;`; no replacement text contains a character that a later pass
/// replaces, so the result is the character-wise escaping.
#[verifier::external_body]
pub fn escape_html(s: &str) -> (r: String)
    ensures
        r@ == html_escaped(s@),
{
    dot::escape_html(s)
}

/// A character that percent-encoding leaves unchanged: an ASCII letter, an
/// ASCII digit, or one of `-`, `.`, `_`, `~`. The comparisons are over the
/// character's code point.
pub open spec fn is_url_unreserved(c: char) -> bool {
    ||| 48 <= c as int <= 57  // '0' ..= '9'
    ||| 65 <= c as int <= 90  // 'A' ..= 'Z'
    ||| 97 <= c as int <= 122  // 'a' ..= 'z'
    ||| c == '-'
    ||| c == '.'
    ||| c == '_'
    ||| c == '~'
}

/// The uppercase hexadecimal digit for a value below 16.
pub open spec fn hex_digit(d: int) -> char {
    if d < 10 {
        (48 + d) as char  // '0' + d
    } else {
        (55 + d) as char  // 'A' + (d - 10)
    }
}

/// The percent-encoding of a sequence of ASCII characters: an unreserved
/// character stands unchanged, every other one becomes `%` followed by the
/// two uppercase hexadecimal digits of its code point.
pub open spec fn url_encoded_ascii(s: Seq<char>) -> Seq<char>
    decreases s.len(),
{
    if s.len() == 0 {
        Seq::empty()
    } else {
        let rest = url_encoded_ascii(s.skip(1));
        if is_url_unreserved(s[0]) {
            seq![s[0]] + rest
        } else {
            seq!['%', hex_digit(s[0] as int / 16), hex_digit(s[0] as int % 16)] + rest
        }
    }
}

/// What urlencoding::encode returns; it depends on the characters of the
/// argument alone.
pub uninterp spec fn url_encoded(s: Seq<char>) -> Seq<char>;

/// Relies on urlencoding::encode: it percent-encodes every byte of the
/// UTF-8 form of the argument except ASCII alphanumerics and `-`, `_`,
/// `.`, `~`, with uppercase hexadecimal digits. On a sequence of ASCII
/// characters each character is one byte, so there the result is stated
/// exactly.
#[verifier::external_body]
pub fn url_encode(s: &str) -> (r: String)
    ensures
        r@ == url_encoded(s@),
        (forall|k: int| 0 <= k < s@.len() ==> s@[k] as int <= 127) ==> r@ == url_encoded_ascii(
            s@,
        ),
{
    urlencoding::encode(s).into_owned()
}

} // verus!
