//! The smallest pieces of query text: decimal numbers and quoted names.

use vstd::prelude::*;

verus! {

/// The character of one decimal digit.
pub open spec fn digit_char(d: int) -> char {
    seq!['0', '1', '2', '3', '4', '5', '6', '7', '8', '9'][d]
}

/// Decimal notation of a natural number, without leading zeros.
pub open spec fn decimal(n: nat) -> Seq<char>
    decreases n,
{
    if n < 10 {
        seq![digit_char(n as int)]
    } else {
        decimal(n / 10).push(digit_char((n % 10) as int))
    }
}

/// Decimal notation of an integer, with `-` before a negative one.
pub open spec fn int_text(i: int) -> Seq<char> {
    if i < 0 {
        seq!['-'] + decimal((-i) as nat)
    } else {
        decimal(i as nat)
    }
}

/// A decimal digit.
pub open spec fn is_digit(c: char) -> bool {
    '0' <= c <= '9'
}

/// A character that may stand in a bare name: an ASCII letter, a digit or `_`.
pub open spec fn is_plain(c: char) -> bool {
    is_digit(c) || ('a' <= c <= 'z') || ('A' <= c <= 'Z') || c == '_'
}

/// Whether every character of `s` may stand in a bare name.
pub open spec fn all_plain(s: Seq<char>) -> bool {
    forall|i: int| 0 <= i < s.len() ==> is_plain(#[trigger] s[i])
}

/// Whether every character of `s` is a digit; the empty string counts.
pub open spec fn all_digits(s: Seq<char>) -> bool {
    forall|i: int| 0 <= i < s.len() ==> is_digit(#[trigger] s[i])
}

/// `s` with a backslash put before each occurrence of `close`.
pub open spec fn guarded(s: Seq<char>, close: char) -> Seq<char>
    decreases s.len(),
{
    if s.len() == 0 {
        Seq::empty()
    } else if s.last() == close {
        guarded(s.drop_last(), close).push('\\').push(close)
    } else {
        guarded(s.drop_last(), close).push(s.last())
    }
}

/// Where `close` does not stand in `s`, nothing in `s` is guarded.
pub proof fn lemma_guarded_without(s: Seq<char>, close: char)
    requires
        forall|i: int| 0 <= i < s.len() ==> s[i] != close,
    ensures
        guarded(s, close) == s,
    decreases s.len(),
{
    if s.len() > 0 {
        lemma_guarded_without(s.drop_last(), close);
        assert(s.drop_last().push(s.last()) =~= s);
    }
}

/// `s` between `open` and `close`, with each `close` inside it guarded.
pub open spec fn quoted(s: Seq<char>, open: char, close: char) -> Seq<char> {
    seq![open] + guarded(s, close) + seq![close]
}

/// A name that is quoted unless it is made of plain characters only.
pub open spec fn escaped_normal(s: Seq<char>, open: char, close: char) -> Seq<char> {
    if all_plain(s) {
        s
    } else {
        quoted(s, open, close)
    }
}

/// A name that is quoted unless it is made of plain characters, not all of
/// them digits. The empty name counts as all digits.
pub open spec fn escaped_numeric(s: Seq<char>, open: char, close: char) -> Seq<char> {
    if all_plain(s) && !all_digits(s) {
        s
    } else {
        quoted(s, open, close)
    }
}

/// A digit of lower-case hexadecimal notation.
pub open spec fn is_hex_digit(c: char) -> bool {
    is_digit(c) || ('a' <= c <= 'f')
}

/// Whether `c` may stand at place `i` of a uuid's text: a hyphen at the
/// places 8, 13, 18 and 23, a hexadecimal digit at every other place.
pub open spec fn fits_uuid(i: int, c: char) -> bool {
    if i == 8 || i == 13 || i == 18 || i == 23 {
        c == '-'
    } else {
        is_hex_digit(c)
    }
}

/// Whether `s` is the text of a uuid: 32 lower-case hexadecimal digits in
/// groups of 8, 4, 4, 4 and 12, with a hyphen between the groups.
pub open spec fn is_uuid_text(s: Seq<char>) -> bool {
    s.len() == 36 && forall|i: int| 0 <= i < 36 ==> fits_uuid(i, #[trigger] s[i])
}

/// A table or field name as it stands in a query: bare, or between backticks.
pub open spec fn ident_text(name: Seq<char>) -> Seq<char> {
    escaped_numeric(name, '`', '`')
}

/// A record key or the table part of a record id: bare, or between `⟨` and `⟩`.
pub open spec fn rid_text(name: Seq<char>) -> Seq<char> {
    escaped_numeric(name, '⟨', '⟩')
}

/// The key of an object entry: bare, or between double quotes.
pub open spec fn key_text(name: Seq<char>) -> Seq<char> {
    escaped_normal(name, '"', '"')
}

/// The parts joined, with `sep` between each two neighbours.
pub open spec fn joined(parts: Seq<Seq<char>>, sep: Seq<char>) -> Seq<char>
    decreases parts.len(),
{
    if parts.len() == 0 {
        Seq::empty()
    } else if parts.len() == 1 {
        parts[0]
    } else {
        joined(parts.drop_last(), sep) + sep + parts.last()
    }
}

/// Joining one part more: the separator comes first unless nothing was there.
pub proof fn lemma_joined_push(parts: Seq<Seq<char>>, sep: Seq<char>, next: Seq<char>)
    ensures
        joined(parts.push(next), sep) == if parts.len() == 0 {
            next
        } else {
            joined(parts, sep) + sep + next
        },
{
    assert(parts.push(next).drop_last() =~= parts);
    assert(parts.push(next).last() == next);
}

/// The order of strings: by the first character in which they differ, and a
/// proper prefix before the longer string.
pub open spec fn lex_lt(a: Seq<char>, b: Seq<char>) -> bool
    decreases a.len(),
{
    if b.len() == 0 {
        false
    } else if a.len() == 0 {
        true
    } else if a[0] != b[0] {
        a[0] < b[0]
    } else {
        lex_lt(a.drop_first(), b.drop_first())
    }
}

/// The order of strings is transitive.
pub proof fn lemma_lex_transitive(a: Seq<char>, b: Seq<char>, c: Seq<char>)
    requires
        lex_lt(a, b),
        lex_lt(b, c),
    ensures
        lex_lt(a, c),
    decreases a.len(),
{
    if a.len() > 0 && a[0] == b[0] && b[0] == c[0] {
        lemma_lex_transitive(a.drop_first(), b.drop_first(), c.drop_first());
    }
}

/// Of two different strings one stands before the other.
pub proof fn lemma_lex_total(a: Seq<char>, b: Seq<char>)
    ensures
        lex_lt(a, b) || lex_lt(b, a) || a == b,
    decreases a.len(),
{
    if a.len() > 0 && b.len() > 0 && a[0] == b[0] {
        lemma_lex_total(a.drop_first(), b.drop_first());
        if a.drop_first() == b.drop_first() {
            assert(a =~= seq![a[0]] + a.drop_first());
            assert(b =~= seq![b[0]] + b.drop_first());
        }
    } else if a.len() == 0 && b.len() == 0 {
        assert(a =~= b);
    }
}

/// `<` of `str`, which orders strings by their bytes and so by their
/// characters' code points.
#[verifier::external_body]
pub(crate) fn str_lt(a: &str, b: &str) -> (r: bool)
    ensures
        r == lex_lt(a@, b@),
{
    a < b
}

/// `==` of `str`.
#[verifier::external_body]
pub(crate) fn str_eq(a: &str, b: &str) -> (r: bool)
    ensures
        r == (a@ == b@),
{
    a == b
}

/// `String::push`, which puts one character at the end.
#[verifier::external_body]
pub(crate) fn push_char(s: &mut String, c: char)
    ensures
        final(s)@ == old(s)@.push(c),
{
    s.push(c)
}

/// Whether every character of `s` may stand in a bare name.
pub fn is_all_plain(s: &str) -> (r: bool)
    ensures
        r == all_plain(s@),
{
    let n = s.unicode_len();
    let mut i: usize = 0;
    while i < n
        invariant
            i <= n,
            n == s@.len(),
            forall|j: int| 0 <= j < i ==> is_plain(#[trigger] s@[j]),
        decreases n - i,
    {
        let c = s.get_char(i);
        let plain = ('0' <= c && c <= '9') || ('a' <= c && c <= 'z') || ('A' <= c && c <= 'Z')
            || c == '_';
        if !plain {
            return false;
        }
        i += 1;
    }
    true
}

/// `s` between `open` and `close`, with a backslash before each `close` in it.
pub fn quote(s: &str, open: char, close: char) -> (out: String)
    ensures
        out@ == quoted(s@, open, close),
{
    let n = s.unicode_len();
    let mut out = String::new();
    push_char(&mut out, open);
    let mut i: usize = 0;
    while i < n
        invariant
            i <= n,
            n == s@.len(),
            out@ == seq![open] + guarded(s@.subrange(0, i as int), close),
        decreases n - i,
    {
        let c = s.get_char(i);
        proof {
            let next = s@.subrange(0, i + 1);
            assert(next.drop_last() =~= s@.subrange(0, i as int));
            assert(next.last() == c);
        }
        if c == close {
            push_char(&mut out, '\\');
        }
        push_char(&mut out, c);
        assert(out@ =~= seq![open] + guarded(s@.subrange(0, i + 1), close));
        i += 1;
    }
    assert(s@.subrange(0, n as int) =~= s@);
    push_char(&mut out, close);
    assert(out@ =~= quoted(s@, open, close));
    out
}

/// The key of an object entry as it stands in a query.
pub fn key_literal(key: &str) -> (out: String)
    ensures
        out@ == key_text(key@),
{
    if is_all_plain(key) {
        key.to_owned()
    } else {
        quote(key, '"', '"')
    }
}

} // verus!
