use vstd::prelude::*;

verus! {

/// `c` has the Unicode `White_Space` property (the set `char::is_whitespace` tests).
pub open spec fn is_whitespace_spec(c: char) -> bool {
    ||| ('\u{9}' <= c && c <= '\u{d}')
    ||| c == ' '
    ||| c == '\u{85}'
    ||| c == '\u{a0}'
    ||| c == '\u{1680}'
    ||| ('\u{2000}' <= c && c <= '\u{200a}')
    ||| c == '\u{2028}'
    ||| c == '\u{2029}'
    ||| c == '\u{202f}'
    ||| c == '\u{205f}'
    ||| c == '\u{3000}'
}

/// A text is blank when trimming whitespace leaves nothing: every character is whitespace.
pub open spec fn is_blank(s: Seq<char>) -> bool {
    forall|i: int| 0 <= i < s.len() ==> is_whitespace_spec(#[trigger] s[i])
}

/// Whether `c` is a Unicode whitespace character.
pub fn is_whitespace(c: char) -> (r: bool)
    ensures
        r == is_whitespace_spec(c),
{
    ('\u{9}' <= c && c <= '\u{d}') || c == ' ' || c == '\u{85}' || c == '\u{a0}' || c == '\u{1680}'
        || ('\u{2000}' <= c && c <= '\u{200a}') || c == '\u{2028}' || c == '\u{2029}'
        || c == '\u{202f}' || c == '\u{205f}' || c == '\u{3000}'
}

/// Whether `s.trim()` would be empty.
pub fn is_blank_str(s: &str) -> (r: bool)
    ensures
        r == is_blank(s@),
{
    let n = s.unicode_len();
    let mut i: usize = 0;
    while i < n
        invariant
            n == s@.len(),
            i <= n,
            forall|j: int| 0 <= j < i ==> is_whitespace_spec(#[trigger] s@[j]),
        decreases n - i,
    {
        if !is_whitespace(s.get_char(i)) {
            return false;
        }
        i = i + 1;
    }
    true
}

/// The character classes that the value objects of the domain accept.
#[derive(Clone, Copy, Debug, PartialEq, Eq, Structural)]
pub enum CharClass {
    /// ASCII digits, `-` and `.` (ledger account codes).
    AccountCode,
    /// ASCII letters and digits, `-`, `_` and `.` (stock keeping units).
    Sku,
    /// ASCII letters and digits, `-` and `/` (invoice numbers).
    InvoiceNumber,
    /// ASCII letters and digits, `-` and `.` (tax identifiers).
    TaxId,
}

/// `c` is an ASCII digit.
pub open spec fn is_ascii_digit_spec(c: char) -> bool {
    '0' <= c && c <= '9'
}

/// `c` is an ASCII letter or digit.
pub open spec fn is_ascii_alphanumeric_spec(c: char) -> bool {
    ||| is_ascii_digit_spec(c)
    ||| ('a' <= c && c <= 'z')
    ||| ('A' <= c && c <= 'Z')
}

/// Membership of a character in a class.
pub open spec fn in_class(class: CharClass, c: char) -> bool {
    match class {
        CharClass::AccountCode => is_ascii_digit_spec(c) || c == '-' || c == '.',
        CharClass::Sku => is_ascii_alphanumeric_spec(c) || c == '-' || c == '_' || c == '.',
        CharClass::InvoiceNumber => is_ascii_alphanumeric_spec(c) || c == '-' || c == '/',
        CharClass::TaxId => is_ascii_alphanumeric_spec(c) || c == '-' || c == '.',
    }
}

/// Class characters are ASCII, so a text made of them has one byte per character.
pub proof fn lemma_class_text_is_ascii(class: CharClass, s: Seq<char>)
    requires
        all_in_class(class, s),
    ensures
        vstd::utf8::encode_utf8(s).len() == s.len(),
{
    assert(vstd::utf8::is_ascii_chars(s)) by {
        assert forall|i| 0 <= i < s.len() implies '\0' <= #[trigger] s[i] <= '\u{7f}' by {
            assert(in_class(class, s[i]));
        }
    }
    vstd::utf8::is_ascii_chars_encode_utf8(s);
}

/// Every character of `s` belongs to `class`.
pub open spec fn all_in_class(class: CharClass, s: Seq<char>) -> bool {
    forall|i: int| 0 <= i < s.len() ==> in_class(class, #[trigger] s[i])
}

/// Whether `c` belongs to `class`.
pub fn char_in_class(class: CharClass, c: char) -> (r: bool)
    ensures
        r == in_class(class, c),
{
    let digit = '0' <= c && c <= '9';
    let alnum = digit || ('a' <= c && c <= 'z') || ('A' <= c && c <= 'Z');
    match class {
        CharClass::AccountCode => digit || c == '-' || c == '.',
        CharClass::Sku => alnum || c == '-' || c == '_' || c == '.',
        CharClass::InvoiceNumber => alnum || c == '-' || c == '/',
        CharClass::TaxId => alnum || c == '-' || c == '.',
    }
}

/// Whether every character of `s` belongs to `class`.
pub fn str_all_in_class(class: CharClass, s: &str) -> (r: bool)
    ensures
        r == all_in_class(class, s@),
{
    let n = s.unicode_len();
    let mut i: usize = 0;
    while i < n
        invariant
            n == s@.len(),
            i <= n,
            forall|j: int| 0 <= j < i ==> in_class(class, #[trigger] s@[j]),
        decreases n - i,
    {
        if !char_in_class(class, s.get_char(i)) {
            return false;
        }
        i = i + 1;
    }
    true
}

/// Character-wise equality of two texts.
pub fn str_equals(a: &str, b: &str) -> (r: bool)
    ensures
        r == (a@ == b@),
{
    let n = a.unicode_len();
    if n != b.unicode_len() {
        return false;
    }
    let mut i: usize = 0;
    while i < n
        invariant
            n == a@.len(),
            n == b@.len(),
            i <= n,
            forall|j: int| 0 <= j < i ==> a@[j] == b@[j],
        decreases n - i,
    {
        if a.get_char(i) != b.get_char(i) {
            return false;
        }
        i = i + 1;
    }
    assert(a@ =~= b@);
    true
}

} // verus!
