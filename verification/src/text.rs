//! Tokenization and suffix matching over type-signature text.
//!
//! Relation classification is purely syntactic: two type references denote
//! the same type exactly when their rendered text, split at bracket-like
//! separator characters, yields a token equal to the candidate name. All
//! such matching is gathered here so that a future resolved-type-based
//! classifier could replace it without touching the rest of the crate.

use vstd::prelude::*;

verus! {

/// The characters that end a token inside rendered type text: the bracket
/// and punctuation characters `< [ ( ; , ) ] >`, and, when `with_space` is
/// set, the space character. Splitting on the space is wanted when matching
/// a bare name, and unwanted when matching a raw-pointer form such as
/// `*mut Name`, which contains a space of its own.
pub open spec fn is_sep(c: char, with_space: bool) -> bool {
    ||| c == '<'
    ||| c == '['
    ||| c == '('
    ||| c == ';'
    ||| c == ','
    ||| c == ')'
    ||| c == ']'
    ||| c == '>'
    ||| (with_space && c == ' ')
}

/// Whether `s` contains no separator character at all.
pub open spec fn sep_free(s: Seq<char>, with_space: bool) -> bool {
    forall|k: int| 0 <= k < s.len() ==> !is_sep(s[k], with_space)
}

/// Whether `name` occurs in `text` starting at position `i`, delimited on
/// both sides by a separator or by the end of the text.
pub open spec fn token_at(text: Seq<char>, name: Seq<char>, with_space: bool, i: int) -> bool {
    &&& 0 <= i
    &&& i + name.len() <= text.len()
    &&& (i == 0 || is_sep(text[i - 1], with_space))
    &&& (i + name.len() == text.len() || is_sep(text[i + name.len()], with_space))
    &&& text.subrange(i, i + name.len()) == name
}

/// Whether splitting `text` at the separator characters yields a token equal
/// to `name`. A name that itself contains a separator can never be produced
/// by the split, so it matches nowhere.
pub open spec fn has_token(text: Seq<char>, name: Seq<char>, with_space: bool) -> bool {
    sep_free(name, with_space) && exists|i: int| token_at(text, name, with_space, i)
}

/// Whether `suffix` is a suffix of `text`. This is the deliberately looser
/// match used for dependency detection, so that reference and generic
/// wrapper parameters such as `&Name` or `Vec<Name>` are caught.
pub open spec fn is_suffix_of(suffix: Seq<char>, text: Seq<char>) -> bool {
    suffix.len() <= text.len() && text.subrange(text.len() - suffix.len(), text.len() as int)
        == suffix
}

/// Executable test for `is_sep`.
pub fn is_sep_char(c: char, with_space: bool) -> (r: bool)
    ensures
        r == is_sep(c, with_space),
{
    c == '<' || c == '[' || c == '(' || c == ';' || c == ',' || c == ')' || c == ']' || c == '>'
        || (with_space && c == ' ')
}

/// Equality of two string slices, stated over their character sequences.
pub fn str_eq(a: &str, b: &str) -> (r: bool)
    ensures
        r == (a@ == b@),
{
    let oa: String = a.to_owned();
    let ob: String = b.to_owned();
    oa == ob
}

/// Executable test for `has_token`.
pub fn contains_token(text: &str, name: &str, with_space: bool) -> (r: bool)
    ensures
        r == has_token(text@, name@, with_space),
{
    let tlen: usize = text.unicode_len();
    let nlen: usize = name.unicode_len();
    let mut k: usize = 0;
    while k < nlen
        invariant
            k <= nlen,
            nlen == name@.len(),
            forall|j: int| 0 <= j < k ==> !is_sep(name@[j], with_space),
        decreases nlen - k,
    {
        if is_sep_char(name.get_char(k), with_space) {
            return false;
        }
        k += 1;
    }
    if nlen > tlen {
        assert(forall|i: int| !token_at(text@, name@, with_space, i));
        return false;
    }
    let count: usize = tlen - nlen;
    let mut i: usize = 0;
    while i <= count
        invariant
            tlen == text@.len(),
            nlen == name@.len(),
            nlen <= tlen,
            count == tlen - nlen,
            i <= count,
            sep_free(name@, with_space),
            forall|j: int| 0 <= j < i ==> !token_at(text@, name@, with_space, j),
        decreases count - i,
    {
        let left_ok: bool = i == 0 || is_sep_char(text.get_char(i - 1), with_space);
        let right_ok: bool = i + nlen == tlen || is_sep_char(text.get_char(i + nlen), with_space);
        if left_ok && right_ok {
            let sub: &str = text.substring_char(i, i + nlen);
            if str_eq(sub, name) {
                assert(token_at(text@, name@, with_space, i as int));
                return true;
            }
        }
        assert(!token_at(text@, name@, with_space, i as int));
        if i == count {
            assert forall|j: int| !token_at(text@, name@, with_space, j) by {
                if token_at(text@, name@, with_space, j) {
                    assert(0 <= j <= count);
                }
            }
            return false;
        }
        i += 1;
    }
    assert forall|j: int| !token_at(text@, name@, with_space, j) by {
        if token_at(text@, name@, with_space, j) {
            assert(0 <= j <= count);
        }
    }
    false
}

/// Executable test for `is_suffix_of`.
pub fn ends_with_name(text: &str, name: &str) -> (r: bool)
    ensures
        r == is_suffix_of(name@, text@),
{
    let tlen: usize = text.unicode_len();
    let nlen: usize = name.unicode_len();
    if nlen > tlen {
        return false;
    }
    let sub: &str = text.substring_char(tlen - nlen, tlen);
    str_eq(sub, name)
}

} // verus!
