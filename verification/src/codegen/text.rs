//! Small text operations for building code.
use vstd::prelude::*;
use vstd::string::{StrSliceExecFns, StringExecFns};

verus! {

/// The first character of the uppercase mapping of a character, which
/// `char::to_uppercase` yields.
pub uninterp spec fn uppercase_first(c: char) -> char;

/// The first character of the uppercase mapping of `c` (by
/// `char::to_uppercase`, which always yields at least one character). The
/// contract names the result and states the ASCII cases: a lowercase ASCII
/// letter maps to its uppercase letter, any other ASCII character to itself.
/// The mapping of other characters is left unsaid.
#[verifier::external_body]
fn to_uppercase_first(c: char) -> (r: char)
    ensures
        r == uppercase_first(c),
        'a' <= c <= 'z' ==> r as u32 == c as u32 - 32,
        (c as u32) < 128 && !('a' <= c <= 'z') ==> r == c,
{
    c.to_uppercase().next().unwrap()
}

/// Appends a character to a string, by `String::push`.
#[verifier::external_body]
fn push_char(s: &mut String, c: char)
    ensures
        final(s)@ == old(s)@.push(c),
{
    s.push(c);
}

/// Whether two texts are equal.
pub fn same_text(a: &str, b: &str) -> (r: bool)
    ensures
        r == (a@ == b@),
{
    let n = a.unicode_len();
    if n != b.unicode_len() {
        return false;
    }
    let mut i: usize = 0;
    while i < n
        invariant
            n == a@.len(),
            n == b@.len(),
            i <= n,
            forall|j: int| 0 <= j < i ==> a@[j] == b@[j],
        decreases n - i,
    {
        if a.get_char(i) != b.get_char(i) {
            return false;
        }
        i = i + 1;
    }
    assert(a@ =~= b@);
    true
}

/// Whether a text starts with a prefix.
pub fn starts_with(s: &str, prefix: &str) -> (r: bool)
    ensures
        r == (prefix@.len() <= s@.len() && s@.subrange(0, prefix@.len() as int) == prefix@),
{
    let n = prefix.unicode_len();
    if n > s.unicode_len() {
        return false;
    }
    let mut i: usize = 0;
    while i < n
        invariant
            n == prefix@.len(),
            n <= s@.len(),
            i <= n,
            forall|j: int| 0 <= j < i ==> s@[j] == prefix@[j],
        decreases n - i,
    {
        if s.get_char(i) != prefix.get_char(i) {
            assert(s@.subrange(0, n as int)[i as int] != prefix@[i as int]);
            return false;
        }
        i = i + 1;
    }
    assert(s@.subrange(0, n as int) =~= prefix@);
    true
}

/// Appends a text to a string.
pub fn push_text(s: &mut String, t: &str)
    ensures
        final(s)@ == old(s)@ + t@,
{
    s.append(t);
}

/// The capital of a character as a word of a name starts with it: an ASCII
/// lowercase letter becomes its uppercase letter, another ASCII character
/// stays, and any other character becomes the first character of its
/// uppercase mapping.
pub open spec fn capital(c: char) -> char {
    if 'a' <= c <= 'z' {
        ((c as u32) - 32) as char
    } else if (c as u32) < 128 {
        c
    } else {
        uppercase_first(c)
    }
}

/// A text with the words separated by `_` joined, each word starting with
/// an uppercase letter: the characters from `s` on, where the next character
/// is capitalised if `upper` holds.
pub open spec fn pascal_from(s: Seq<char>, upper: bool) -> Seq<char>
    decreases s.len(),
{
    if s.len() == 0 {
        Seq::empty()
    } else if s[0] == '_' {
        pascal_from(s.drop_first(), true)
    } else {
        seq![if upper { capital(s[0]) } else { s[0] }] + pascal_from(s.drop_first(), false)
    }
}

/// `snake_case` to `PascalCase`.
pub open spec fn pascal_case(s: Seq<char>) -> Seq<char> {
    pascal_from(s, true)
}

proof fn lemma_pascal_from_split(s: Seq<char>, i: int, upper: bool)
    requires
        0 <= i < s.len(),
    ensures
        pascal_from(s.skip(i), upper) == if s[i] == '_' {
            pascal_from(s.skip(i + 1), true)
        } else {
            seq![if upper { capital(s[i]) } else { s[i] }] + pascal_from(s.skip(i + 1), false)
        },
{
    assert(s.skip(i).drop_first() =~= s.skip(i + 1));
}

/// Convert a `snake_case` text to `PascalCase`.
pub fn to_pascal_case(text: &str) -> (r: String)
    ensures
        r@ == pascal_case(text@),
{
    let n = text.unicode_len();
    let mut s = String::new();
    let mut uppercase = true;
    let mut i: usize = 0;
    assert(text@.skip(0) =~= text@);
    while i < n
        invariant
            n == text@.len(),
            i <= n,
            s@ + pascal_from(text@.skip(i as int), uppercase) == pascal_case(text@),
        decreases n - i,
    {
        let c = text.get_char(i);
        proof {
            lemma_pascal_from_split(text@, i as int, uppercase);
        }
        if c == '_' {
            uppercase = true;
        } else {
            let ghost before = s@;
            if uppercase {
                let u = to_uppercase_first(c);
                proof {
                    if 'a' <= c <= 'z' {
                        assert(u == ((c as u32) - 32) as char);
                    }
                }
                push_char(&mut s, u);
                uppercase = false;
            } else {
                push_char(&mut s, c);
            }
            assert(s@ + pascal_from(text@.skip(i + 1), false) =~= before + (seq![s@.last()]
                + pascal_from(text@.skip(i + 1), false)));
        }
        i = i + 1;
    }
    assert(pascal_from(text@.skip(n as int), uppercase) =~= Seq::<char>::empty());
    assert(s@ + Seq::<char>::empty() =~= s@);
    s
}

} // verus!
