//! Small operations on strings, stated over their characters.

use vstd::prelude::*;

verus! {

/// What the documentation of `String::push` says, taken on trust: the
/// character is appended to the end of the string.
pub assume_specification[ String::push ](s: &mut String, c: char)
    ensures
        final(s)@ == old(s)@.push(c),
;

/// The upper-case form of an ASCII letter; any other character is unchanged.
pub open spec fn upper_char(c: char) -> char {
    if 'a' <= c && c <= 'z' {
        ((c as u32) - 32) as char
    } else {
        c
    }
}

/// `s` with every ASCII letter in upper case.
pub open spec fn ascii_upper(s: Seq<char>) -> Seq<char> {
    Seq::new(s.len(), |i: int| upper_char(s[i]))
}

/// The view of an optional string.
pub open spec fn opt_view(s: Option<String>) -> Option<Seq<char>> {
    match s {
        Some(s) => Some(s@),
        None => None,
    }
}

/// What is left of `s` after `prefix`, where `s` starts with it.
pub open spec fn stripped(s: Seq<char>, prefix: Seq<char>) -> Option<Seq<char>> {
    if prefix.is_prefix_of(s) {
        Some(s.skip(prefix.len() as int))
    } else {
        None
    }
}

/// The upper-case form of an ASCII letter; any other character is unchanged.
fn to_upper_char(c: char) -> (r: char)
    ensures
        r == upper_char(c),
{
    if 'a' <= c && c <= 'z' {
        let code: u8 = c as u8;
        (code - 32) as char
    } else {
        c
    }
}

/// A copy of `s` in which the letters `a` to `z` are `A` to `Z` and every
/// other character, ASCII or not, is as it was.
pub fn to_ascii_uppercase(s: &str) -> (r: String)
    ensures
        r@ == ascii_upper(s@),
{
    let mut out = String::new();
    for c in it: s.chars()
        invariant
            it.seq() == s@,
            out@ == ascii_upper(s@.take(it.index())),
    {
        out.push(to_upper_char(c));
        assert(out@ =~= ascii_upper(s@.take(it.index() + 1)));
    }
    assert(s@.take(s@.len() as int) == s@);
    out
}

/// Whether the last character of `s` is `c`.
pub fn ends_with_char(s: &str, c: char) -> (r: bool)
    ensures
        r == (s@.len() > 0 && s@.last() == c),
{
    let n = s.unicode_len();
    n > 0 && s.get_char(n - 1) == c
}

/// Takes `prefix` off the front of `s`, where `s` starts with it.
pub fn strip_prefix(s: &str, prefix: &str) -> (r: Option<String>)
    ensures
        opt_view(r) == stripped(s@, prefix@),
{
    let n = s.unicode_len();
    let p = prefix.unicode_len();
    if p > n {
        return None;
    }
    let head = String::from_str(s.substring_char(0, p));
    if head == String::from_str(prefix) {
        Some(String::from_str(s.substring_char(p, n)))
    } else {
        None
    }
}

/// How many line feeds `s` holds.
pub open spec fn line_feeds(s: Seq<char>) -> nat
    decreases s.len(),
{
    if s.len() == 0 {
        0
    } else if s.last() == '\n' {
        line_feeds(s.drop_last()) + 1
    } else {
        line_feeds(s.drop_last())
    }
}

/// `s` holds no line feed.
pub open spec fn single_line(s: Seq<char>) -> bool {
    forall|i: int| 0 <= i < s.len() ==> #[trigger] s[i] != '\n'
}

/// The line feeds of a concatenation are those of its parts.
pub proof fn lemma_line_feeds_concat(a: Seq<char>, b: Seq<char>)
    ensures
        line_feeds(a + b) == line_feeds(a) + line_feeds(b),
    decreases b.len(),
{
    if b.len() > 0 {
        assert((a + b).drop_last() =~= a + b.drop_last());
        lemma_line_feeds_concat(a, b.drop_last());
    } else {
        assert(a + b =~= a);
    }
}

/// A text without line feed holds none.
pub proof fn lemma_single_line(s: Seq<char>)
    requires
        single_line(s),
    ensures
        line_feeds(s) == 0,
    decreases s.len(),
{
    if s.len() > 0 {
        assert(s.last() == s[s.len() - 1]);
        lemma_single_line(s.drop_last());
    }
}

/// An upper-cased string holds no lower-case ASCII letter.
pub proof fn lemma_upper_has_no_lower(s: Seq<char>, i: int)
    requires
        0 <= i < s.len(),
    ensures
        ascii_upper(s).len() == s.len(),
        !('a' <= ascii_upper(s)[i] && ascii_upper(s)[i] <= 'z'),
{
}

} // verus!
