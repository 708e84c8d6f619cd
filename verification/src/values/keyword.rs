//! Keywords of style sheets, which match without regard to ASCII case.

use vstd::prelude::*;
use vstd::string::{is_ascii, is_ascii_spec_bytes, StrSliceExecFns, StringSliceAdditionalSpecFns};
use vstd::utf8::is_ascii_chars;

verus! {

/// The lower-case letter of an ASCII capital, and any other character itself.
pub open spec fn ascii_lower(c: char) -> char {
    if 'A' <= c && c <= 'Z' {
        ((c as u8) + 32) as char
    } else {
        c
    }
}

/// `s` with each ASCII capital replaced by its lower-case letter.
pub open spec fn ascii_lowercase(s: Seq<char>) -> Seq<char> {
    Seq::new(s.len(), |i: int| ascii_lower(s[i]))
}

/// Whether `ident` is `keyword` but for the case of ASCII letters.
pub open spec fn matches_keyword(ident: Seq<char>, keyword: Seq<char>) -> bool {
    ascii_lowercase(ident) == ascii_lowercase(keyword)
}

/// The byte of the lower-case letter, where `b` is the byte of an ASCII
/// capital, and else `b` itself.
fn lower_byte(b: u8) -> (lower: u8)
    ensures
        lower == if 65 <= b && b <= 90 {
            (b + 32) as u8
        } else {
            b
        },
{
    if 65 <= b && b <= 90 {
        b + 32
    } else {
        b
    }
}

/// Lowering an ASCII character is lowering its byte, and gives an ASCII
/// character.
proof fn lemma_lower_of_byte(c: char)
    requires
        '\0' <= c <= '\u{7f}',
    ensures
        ascii_lower(c) as u8 == (if 65 <= (c as u8) && (c as u8) <= 90 {
            ((c as u8) + 32) as u8
        } else {
            c as u8
        }),
        '\0' <= ascii_lower(c) <= '\u{7f}',
{
}

/// The lower-case letter of an ASCII capital, and any other character
/// itself.
fn lower_char(c: char) -> (lower: char)
    ensures
        lower == ascii_lower(c),
{
    if 'A' <= c && c <= 'Z' {
        ((c as u8) + 32) as char
    } else {
        c
    }
}

/// A string with a character outside ASCII matches no string that is all
/// ASCII.
proof fn lemma_ascii_matches_ascii_only(plain: Seq<char>, other: Seq<char>)
    requires
        is_ascii_chars(plain),
        !is_ascii_chars(other),
    ensures
        !matches_keyword(plain, other),
        !matches_keyword(other, plain),
{
    let i = choose|i: int| 0 <= i < other.len() && !('\0' <= #[trigger] other[i] <= '\u{7f}');
    if ascii_lowercase(plain) == ascii_lowercase(other) {
        assert(ascii_lowercase(plain).len() == ascii_lowercase(other).len());
        assert(ascii_lowercase(plain)[i] == ascii_lowercase(other)[i]);
        assert('\0' <= plain[i] <= '\u{7f}');
        lemma_lower_of_byte(plain[i]);
    }
}

/// Chooses between two strings that are both ASCII.
fn eq_ignore_case_of_ascii(ident: &str, keyword: &str) -> (same: bool)
    requires
        is_ascii(ident),
        is_ascii(keyword),
    ensures
        same == matches_keyword(ident@, keyword@),
{
    let a = ident.as_bytes();
    let b = keyword.as_bytes();
    proof {
        is_ascii_spec_bytes(ident);
        is_ascii_spec_bytes(keyword);
        assert(a@.len() == ident@.len() && b@.len() == keyword@.len());
        assert(ascii_lowercase(ident@).len() == ident@.len());
        assert(ascii_lowercase(keyword@).len() == keyword@.len());
    }
    if a.len() != b.len() {
        return false;
    }
    let mut i: usize = 0;
    while i < a.len()
        invariant
            i <= a.len(),
            a.len() == b.len(),
            a@.len() == ident@.len(),
            b@.len() == keyword@.len(),
            is_ascii(ident),
            is_ascii(keyword),
            forall|j: int| 0 <= j < a@.len() ==> a@[j] == ident@[j] as u8,
            forall|j: int| 0 <= j < b@.len() ==> b@[j] == keyword@[j] as u8,
            forall|j: int| 0 <= j < i ==> ascii_lower(ident@[j]) == ascii_lower(keyword@[j]),
        decreases a.len() - i,
    {
        proof {
            lemma_lower_of_byte(ident@[i as int]);
            lemma_lower_of_byte(keyword@[i as int]);
        }
        if lower_byte(a[i]) != lower_byte(b[i]) {
            proof {
                if matches_keyword(ident@, keyword@) {
                    assert(ascii_lowercase(ident@)[i as int] == ascii_lowercase(keyword@)[i as int]);
                }
            }
            return false;
        }
        i = i + 1;
    }
    assert(ascii_lowercase(ident@) =~= ascii_lowercase(keyword@));
    true
}

/// Chooses between two strings character by character.
fn eq_ignore_case_of_chars(ident: &str, keyword: &str) -> (same: bool)
    ensures
        same == matches_keyword(ident@, keyword@),
{
    let n = ident.unicode_len();
    proof {
        assert(ascii_lowercase(ident@).len() == ident@.len());
        assert(ascii_lowercase(keyword@).len() == keyword@.len());
    }
    if n != keyword.unicode_len() {
        return false;
    }
    let mut i: usize = 0;
    while i < n
        invariant
            i <= n,
            n == ident@.len(),
            n == keyword@.len(),
            forall|j: int| 0 <= j < i ==> ascii_lower(ident@[j]) == ascii_lower(keyword@[j]),
        decreases n - i,
    {
        if lower_char(ident.get_char(i)) != lower_char(keyword.get_char(i)) {
            proof {
                if matches_keyword(ident@, keyword@) {
                    assert(ascii_lowercase(ident@)[i as int] == ascii_lowercase(keyword@)[i as int]);
                }
            }
            return false;
        }
        i = i + 1;
    }
    assert(ascii_lowercase(ident@) =~= ascii_lowercase(keyword@));
    true
}

/// Tells whether `ident` is `keyword` but for the case of ASCII letters.
///
/// Keywords are ASCII, and so are most identifiers: these are compared byte
/// by byte.
pub fn eq_ignore_ascii_case(ident: &str, keyword: &str) -> (same: bool)
    ensures
        same == matches_keyword(ident@, keyword@),
{
    let plain_ident = ident.is_ascii();
    let plain_keyword = keyword.is_ascii();
    if plain_ident && plain_keyword {
        eq_ignore_case_of_ascii(ident, keyword)
    } else if plain_ident {
        proof {
            lemma_ascii_matches_ascii_only(ident@, keyword@);
        }
        false
    } else if plain_keyword {
        proof {
            lemma_ascii_matches_ascii_only(keyword@, ident@);
        }
        false
    } else {
        eq_ignore_case_of_chars(ident, keyword)
    }
}

} // verus!
