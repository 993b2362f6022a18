//! The generated file: a header, then one declaration per fact.

use crate::assoc::{
    key_at, lemma_position_unique, lemma_to_map_at, lemma_to_map_dom, position, Key,
};
use crate::clock::{is_digit, is_timestamp};
use crate::store::FactStore;
use crate::text::{
    ascii_upper, lemma_line_feeds_concat, lemma_single_line, line_feeds, single_line,
    to_ascii_uppercase,
};
use crate::value::{fallback, ConstType, ConstVal, ConstValView};
use vstd::prelude::*;

verus! {

/// The first line of the header: what wrote the file.
pub const NOTICE: &'static str = "/// Code generated by shadow-rs generator. DO NOT EDIT.\n";

/// The second line of the header: where the generator comes from.
pub const AUTHOR: &'static str = "/// Author by https://www.github.com/baoyachi\n";

/// The third line of the header, up to the time of creation.
pub const CREATE_TIME: &'static str = "/// create time by:";

/// A character that would break the declaration if it stood in the literal
/// as it is: the double quote, which ends the literal; the backslash, which
/// starts an escape; and the line feed and the carriage return, which break
/// the line.
pub open spec fn breaks_literal(c: char) -> bool {
    c == '\\' || c == '"' || c == '\n' || c == '\r'
}

/// How a literal spells the character `c`: the backslash and the double
/// quote behind a backslash, the line feed and the carriage return as `\n`
/// and `\r`, and every other character as it is.
pub open spec fn escape_char(c: char) -> Seq<char> {
    if c == '\\' {
        seq!['\\', '\\']
    } else if c == '"' {
        seq!['\\', '"']
    } else if c == '\n' {
        seq!['\\', 'n']
    } else if c == '\r' {
        seq!['\\', 'r']
    } else {
        seq![c]
    }
}

/// No character of `s` would break the declaration.
pub open spec fn is_plain(s: Seq<char>) -> bool {
    forall|i: int| 0 <= i < s.len() ==> !breaks_literal(#[trigger] s[i])
}

/// The text that stands for `s` between the quotes of a literal.
pub open spec fn escaped(s: Seq<char>) -> Seq<char>
    decreases s.len(),
{
    if s.len() == 0 {
        Seq::empty()
    } else {
        escaped(s.drop_last()) + escape_char(s.last())
    }
}

/// The character that a backslash and `c` stand for, if any.
pub open spec fn unescape_code(c: char) -> Option<char> {
    if c == '\\' {
        Some('\\')
    } else if c == '"' {
        Some('"')
    } else if c == 'n' {
        Some('\n')
    } else if c == 'r' {
        Some('\r')
    } else {
        None
    }
}

/// What a reader of literals makes of the text `t` between two quotes:
/// `None` where a quote stands bare in it, or a backslash without a code
/// that `escape_char` writes.
pub open spec fn unescaped(t: Seq<char>) -> Option<Seq<char>>
    decreases t.len(),
{
    if t.len() == 0 {
        Some(Seq::empty())
    } else if t[0] == '"' {
        None
    } else if t[0] == '\\' {
        if t.len() < 2 {
            None
        } else {
            match (unescape_code(t[1]), unescaped(t.skip(2))) {
                (Some(c), Some(rest)) => Some(seq![c] + rest),
                _ => None,
            }
        }
    } else {
        match unescaped(t.skip(1)) {
            Some(rest) => Some(seq![t[0]] + rest),
            None => None,
        }
    }
}

/// The header for a file created at `created`: the three lines and an
/// empty one.
pub open spec fn header_text(created: Seq<char>) -> Seq<char> {
    NOTICE@ + AUTHOR@ + CREATE_TIME@ + created + "\n\n"@
}

/// The block that declares one constant: its description as a doc comment,
/// the declaration under the upper-cased name, and an empty line.
pub open spec fn const_text(name: Key, val: ConstValView) -> Seq<char> {
    "/// "@ + val.desc + "\npub const "@ + ascii_upper(name) + " :"@
        + val.t.spec_declared_type() + " = \""@ + escaped(val.literal()) + "\";\n\n"@
}

/// The blocks of all entries, in order.
pub open spec fn body_text(entries: Seq<(Key, ConstValView)>) -> Seq<char>
    decreases entries.len(),
{
    if entries.len() == 0 {
        Seq::empty()
    } else {
        body_text(entries.drop_last()) + const_text(entries.last().0, entries.last().1)
    }
}

/// The whole file.
pub open spec fn file_text(created: Seq<char>, entries: Seq<(Key, ConstValView)>) -> Seq<char> {
    header_text(created) + body_text(entries)
}

/// Appends the spelling of `c` to `out`.
fn push_escaped(out: &mut String, c: char)
    ensures
        final(out)@ == old(out)@ + escape_char(c),
{
    proof {
        reveal_strlit("\\\\");
        reveal_strlit("\\\"");
        reveal_strlit("\\n");
        reveal_strlit("\\r");
    }
    if c == '\\' {
        out.append("\\\\");
    } else if c == '"' {
        out.append("\\\"");
    } else if c == '\n' {
        out.append("\\n");
    } else if c == '\r' {
        out.append("\\r");
    } else {
        out.push(c);
    }
}

/// Spells `s` so that it can stand between the quotes of a literal.
pub fn escape(s: &str) -> (r: String)
    ensures
        r@ == escaped(s@),
{
    let mut out = String::new();
    for c in it: s.chars()
        invariant
            it.seq() == s@,
            out@ == escaped(s@.take(it.index())),
    {
        assert(s@.take(it.index() + 1).drop_last() == s@.take(it.index()));
        push_escaped(&mut out, c);
    }
    assert(s@.take(s@.len() as int) == s@);
    out
}

/// Writes the header for a file created at `created`.
pub fn write_header(created: &str) -> (r: String)
    ensures
        r@ == header_text(created@),
{
    let mut out = String::from_str(NOTICE);
    out.append(AUTHOR);
    out.append(CREATE_TIME);
    out.append(created);
    out.append("\n\n");
    out
}

/// Writes the block that declares `name` with the value `val`.
pub fn write_const(name: &str, val: &ConstVal) -> (r: String)
    ensures
        r@ == const_text(name@, val@),
{
    let upper = to_ascii_uppercase(name);
    let literal = escape(val.literal());
    let mut out = String::from_str("/// ");
    out.append(val.desc.as_str());
    out.append("\npub const ");
    out.append(upper.as_str());
    out.append(" :");
    out.append(val.t.declared_type());
    out.append(" = \"");
    out.append(literal.as_str());
    out.append("\";\n\n");
    out
}

/// Writes the whole file: the header, then every entry of the store once,
/// in the order of the store.
pub fn generate(store: &FactStore, created: &str) -> (r: String)
    ensures
        r@ == file_text(created@, store.entries()),
{
    let mut out = write_header(created);
    let mut i: usize = 0;
    while i < store.len()
        invariant
            i <= store.entries().len(),
            out@ == header_text(created@) + body_text(store.entries().take(i as int)),
        decreases store.entries().len() - i,
    {
        let block = write_const(store.name_at(i).unwrap(), store.value_at(i).unwrap());
        assert(store.entries().take(i + 1).drop_last() == store.entries().take(i as int));
        out.append(block.as_str());
        i += 1;
    }
    assert(store.entries().take(i as int) == store.entries());
    out
}

/// Spelling distributes over concatenation.
pub proof fn lemma_escaped_concat(a: Seq<char>, b: Seq<char>)
    ensures
        escaped(a + b) == escaped(a) + escaped(b),
    decreases b.len(),
{
    if b.len() > 0 {
        assert((a + b).drop_last() =~= a + b.drop_last());
        lemma_escaped_concat(a, b.drop_last());
    }
}

/// The stored value is spelled correctly: a reader of literals gets `s`
/// back from `escaped(s)`. In particular no quote stands bare in it, so the
/// literal ends where the declaration closes it.
pub proof fn lemma_escape_round_trip(s: Seq<char>)
    ensures
        unescaped(escaped(s)) == Some(s),
    decreases s.len(),
{
    if s.len() > 0 {
        let c = s[0];
        let rest = s.skip(1);
        let t = escaped(s);
        assert(s =~= seq![c] + rest);
        lemma_escaped_concat(seq![c], rest);
        assert(escaped(seq![c]) =~= escape_char(c)) by {
            assert(seq![c].drop_last() =~= Seq::<char>::empty());
            assert(escaped(Seq::<char>::empty()) =~= Seq::<char>::empty());
        }
        lemma_escape_round_trip(rest);
        if escape_char(c).len() == 2 {
            assert(t.skip(2) =~= escaped(rest));
        } else {
            assert(t.skip(1) =~= escaped(rest));
        }
    }
}

/// A value in which nothing would break the declaration is written as it
/// is.
pub proof fn lemma_plain_written_as_is(s: Seq<char>)
    requires
        is_plain(s),
    ensures
        escaped(s) == s,
    decreases s.len(),
{
    if s.len() > 0 {
        assert(!breaks_literal(s.last()));
        lemma_plain_written_as_is(s.drop_last());
        assert(s.drop_last() + seq![s.last()] =~= s);
    }
}

/// The block of a plain string in which nothing would break the
/// declaration: the description, then the declaration with the value as it
/// is, then an empty line.
pub proof fn lemma_plain_block(name: Key, val: ConstValView)
    requires
        val.t == ConstType::Str,
        is_plain(val.v),
    ensures
        const_text(name, val) == "/// "@ + val.desc + "\npub const "@ + ascii_upper(name)
            + " :&str = \""@ + val.v + "\";\n\n"@,
{
    lemma_plain_written_as_is(val.v);
    reveal_strlit(" :");
    reveal_strlit("&str");
    reveal_strlit(" = \"");
    reveal_strlit(" :&str = \"");
    assert(" :"@ + "&str"@ + " = \""@ =~= " :&str = \""@);
    let head = "/// "@ + val.desc + "\npub const "@ + ascii_upper(name);
    assert(head + " :"@ + "&str"@ + " = \""@ =~= head + (" :"@ + "&str"@ + " = \""@));
}

/// The time of a run is written as it is, in the header and in a literal,
/// and holds no line break.
pub proof fn lemma_timestamp_is_plain(s: Seq<char>)
    requires
        is_timestamp(s),
    ensures
        is_plain(s),
        single_line(s),
        escaped(s) == s,
{
    let n = s.len() - 15;
    let year = s.take(n);
    let rest = s.skip(n);
    assert forall|i: int| 0 <= i < s.len() implies is_digit(#[trigger] s[i]) || s[i] == '+'
        || s[i] == '-' || s[i] == ':' || s[i] == ' ' by {
        if i < n {
            assert(year[i] == s[i]);
            if i > 0 || year.len() == 4 {
                assert(is_digit(year[i]));
            }
        } else {
            assert(rest[i - n] == s[i]);
        }
    }
    lemma_plain_written_as_is(s);
}

/// A spelled value holds no line feed, whatever the value holds.
pub proof fn lemma_escaped_single_line(s: Seq<char>)
    ensures
        single_line(escaped(s)),
    decreases s.len(),
{
    if s.len() > 0 {
        lemma_escaped_single_line(s.drop_last());
        let init = escaped(s.drop_last());
        let last = escape_char(s.last());
        assert forall|i: int| 0 <= i < escaped(s).len() implies #[trigger] escaped(s)[i]
            != '\n' by {
            if i < init.len() {
                assert(init[i] != '\n');
            } else {
                assert(escaped(s)[i] == last[i - init.len()]);
            }
        }
    }
}

/// Where neither the name nor the description holds a line feed, a block is
/// three lines: the doc comment, the declaration, and the empty line. No
/// value can add a line, since a line feed in it is spelled out.
pub proof fn lemma_block_is_three_lines(name: Key, val: ConstValView)
    requires
        single_line(name),
        single_line(val.desc),
    ensures
        line_feeds(const_text(name, val)) == 3,
{
    let upper = ascii_upper(name);
    let literal = escaped(val.literal());
    assert forall|i: int| 0 <= i < upper.len() implies #[trigger] upper[i] != '\n' by {
        assert(name[i] != '\n');
    }
    lemma_escaped_single_line(val.literal());
    lemma_single_line(val.desc);
    lemma_single_line(upper);
    lemma_single_line(literal);
    reveal_strlit("/// ");
    reveal_strlit("\npub const ");
    reveal_strlit(" :");
    reveal_strlit("&str");
    reveal_strlit(" = \"");
    reveal_strlit("\";\n\n");
    assert(line_feeds("/// "@) == 0) by {
        lemma_single_line("/// "@);
    }
    assert(line_feeds("\npub const "@) == 1) by {
        assert("\npub const "@ =~= seq!['\n'] + "\npub const "@.skip(1));
        lemma_line_feeds_concat(seq!['\n'], "\npub const "@.skip(1));
        lemma_single_line("\npub const "@.skip(1));
        reveal_with_fuel(line_feeds, 2);
    }
    assert(line_feeds(" :"@) == 0) by {
        lemma_single_line(" :"@);
    }
    assert(line_feeds(val.t.spec_declared_type()) == 0) by {
        lemma_single_line("&str"@);
    }
    assert(line_feeds(" = \""@) == 0) by {
        lemma_single_line(" = \""@);
    }
    assert(line_feeds("\";\n\n"@) == 2) by {
        reveal_with_fuel(line_feeds, 5);
    }
    let a = "/// "@ + val.desc;
    let b = a + "\npub const "@;
    let c = b + upper;
    let d = c + " :"@;
    let e = d + val.t.spec_declared_type();
    let f = e + " = \""@;
    let g = f + literal;
    lemma_line_feeds_concat("/// "@, val.desc);
    lemma_line_feeds_concat(a, "\npub const "@);
    lemma_line_feeds_concat(b, upper);
    lemma_line_feeds_concat(c, " :"@);
    lemma_line_feeds_concat(d, val.t.spec_declared_type());
    lemma_line_feeds_concat(e, " = \""@);
    lemma_line_feeds_concat(f, literal);
    lemma_line_feeds_concat(g, "\";\n\n"@);
}

/// Neither a name nor a description of `entries` holds a line feed.
pub open spec fn single_line_entries(entries: Seq<(Key, ConstValView)>) -> bool {
    forall|i: int|
        0 <= i < entries.len() ==> single_line(#[trigger] key_at(entries, i)) && single_line(
            entries[i].1.desc,
        )
}

/// Where no name and no description holds a line feed, every entry takes
/// three lines of the file.
pub proof fn lemma_body_lines(entries: Seq<(Key, ConstValView)>)
    requires
        single_line_entries(entries),
    ensures
        line_feeds(body_text(entries)) == 3 * entries.len(),
    decreases entries.len(),
{
    if entries.len() > 0 {
        let init = entries.drop_last();
        assert forall|i: int| 0 <= i < init.len() implies single_line(#[trigger] key_at(init, i))
            && single_line(init[i].1.desc) by {
            assert(single_line(key_at(entries, i)));
        }
        lemma_body_lines(init);
        assert(single_line(key_at(entries, entries.len() - 1)));
        lemma_block_is_three_lines(entries.last().0, entries.last().1);
        lemma_line_feeds_concat(
            body_text(init),
            const_text(entries.last().0, entries.last().1),
        );
    }
}

/// The header of a file created at a time without line feed is four lines:
/// the three of the notice and the empty one.
pub proof fn lemma_header_lines(created: Seq<char>)
    requires
        single_line(created),
    ensures
        line_feeds(header_text(created)) == 4,
{
    reveal_strlit("/// Code generated by shadow-rs generator. DO NOT EDIT.\n");
    reveal_strlit("/// Author by https://www.github.com/baoyachi\n");
    reveal_strlit("/// create time by:");
    reveal_strlit("\n\n");
    assert(line_feeds(NOTICE@) == 1) by {
        lemma_single_line(NOTICE@.drop_last());
    }
    assert(line_feeds(AUTHOR@) == 1) by {
        lemma_single_line(AUTHOR@.drop_last());
    }
    assert(line_feeds(CREATE_TIME@) == 0) by {
        lemma_single_line(CREATE_TIME@);
    }
    assert(line_feeds("\n\n"@) == 2) by {
        reveal_with_fuel(line_feeds, 3);
    }
    lemma_single_line(created);
    lemma_line_feeds_concat(NOTICE@, AUTHOR@);
    lemma_line_feeds_concat(NOTICE@ + AUTHOR@, CREATE_TIME@);
    lemma_line_feeds_concat(NOTICE@ + AUTHOR@ + CREATE_TIME@, created);
    lemma_line_feeds_concat(NOTICE@ + AUTHOR@ + CREATE_TIME@ + created, "\n\n"@);
}

/// A constant of optional type is written with an empty literal, whatever
/// was collected for it.
pub proof fn lemma_optional_written_empty(name: Key, val: ConstValView)
    requires
        val.t == ConstType::OptStr,
    ensures
        val.literal() == Seq::<char>::empty(),
        escaped(val.literal()) == Seq::<char>::empty(),
        const_text(name, val) == const_text(name, fallback(val.desc)),
{
}

/// The blocks of a concatenation are the blocks of its parts.
pub proof fn lemma_body_text_concat(a: Seq<(Key, ConstValView)>, b: Seq<(Key, ConstValView)>)
    ensures
        body_text(a + b) == body_text(a) + body_text(b),
    decreases b.len(),
{
    if b.len() > 0 {
        assert((a + b).drop_last() =~= a + b.drop_last());
        lemma_body_text_concat(a, b.drop_last());
    }
}

/// Every name of the store is declared exactly once: one entry holds it,
/// with the value that the store binds to it.
pub proof fn lemma_each_name_once(store: FactStore, name: Key)
    requires
        store.wf(),
        store@.contains_key(name),
    ensures
        0 <= position(store.entries(), name) < store.entries().len(),
        store.entries()[position(store.entries(), name)] == (name, store@[name]),
        forall|i: int|
            0 <= i < store.entries().len() && #[trigger] key_at(store.entries(), i) == name ==> i
                == position(store.entries(), name),
{
    let s = store.entries();
    lemma_to_map_dom(s, name);
    let p = position(s, name);
    lemma_to_map_at(s, p);
    assert forall|i: int| 0 <= i < s.len() && #[trigger] key_at(s, i) == name implies i == p by {
        lemma_position_unique(s, name, i);
    }
}

/// No two names of `entries` are the same once they are upper-cased.
pub open spec fn distinct_identifiers(entries: Seq<(Key, ConstValView)>) -> bool {
    forall|i: int, j: int|
        0 <= i < j < entries.len() ==> #[trigger] ascii_upper(key_at(entries, i))
            != #[trigger] ascii_upper(key_at(entries, j))
}

/// Where no two names of the store differ in case alone, every identifier
/// is declared exactly once: the one block that declares the upper-cased
/// `name` is the block of `name`.
pub proof fn lemma_identifier_once(store: FactStore, name: Key)
    requires
        distinct_identifiers(store.entries()),
        store@.contains_key(name),
    ensures
        store.wf(),
        forall|i: int|
            0 <= i < store.entries().len() && #[trigger] ascii_upper(key_at(store.entries(), i))
                == ascii_upper(name) ==> i == position(store.entries(), name),
{
    let s = store.entries();
    assert forall|i: int, j: int| 0 <= i < j < s.len() implies #[trigger] key_at(s, i)
        != #[trigger] key_at(s, j) by {
        assert(ascii_upper(key_at(s, i)) != ascii_upper(key_at(s, j)));
    }
    lemma_each_name_once(store, name);
    let p = position(s, name);
    assert forall|i: int|
        0 <= i < s.len() && #[trigger] ascii_upper(key_at(s, i)) == ascii_upper(
            name,
        ) implies i == p by {
        if i < p {
            assert(ascii_upper(key_at(s, i)) != ascii_upper(key_at(s, p)));
        } else if p < i {
            assert(ascii_upper(key_at(s, p)) != ascii_upper(key_at(s, i)));
        }
    }
}

/// Every name of the store has its block in the file: behind the header and
/// the blocks of the entries before it stands the declaration of the name,
/// upper-cased, with the value that the store binds to it, spelled as a
/// literal; the blocks of the entries after it follow.
pub proof fn lemma_name_is_declared(store: FactStore, created: Seq<char>, name: Key)
    requires
        store.wf(),
        store@.contains_key(name),
    ensures
        file_text(created, store.entries()) == header_text(created) + body_text(
            store.entries().take(position(store.entries(), name)),
        ) + const_text(name, store@[name]) + body_text(
            store.entries().skip(position(store.entries(), name) + 1),
        ),
{
    let s = store.entries();
    let p = position(s, name);
    lemma_each_name_once(store, name);
    let before = s.take(p);
    let one = seq![s[p]];
    let after = s.skip(p + 1);
    assert(s =~= before + one + after);
    lemma_body_text_concat(before + one, after);
    lemma_body_text_concat(before, one);
    assert(body_text(one) =~= const_text(name, store@[name])) by {
        assert(one.drop_last() =~= Seq::<(Key, ConstValView)>::empty());
        assert(body_text(Seq::<(Key, ConstValView)>::empty()) =~= Seq::<char>::empty());
    }
    assert(file_text(created, s) =~= header_text(created) + body_text(before) + const_text(
        name,
        store@[name],
    ) + body_text(after));
}

} // verus!
