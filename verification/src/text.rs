//! Text as a sequence of characters: prefixes, substrings, trimming and
//! lines, each as a spec function with the executable function that computes
//! it on a vector of characters.

use crate::chars::is_whitespace;
use crate::chars::whitespace;
use vstd::prelude::*;

verus! {

/// `p` stands at the start of `s`.
pub open spec fn starts_with(s: Seq<char>, p: Seq<char>) -> bool {
    p.len() <= s.len() && s.subrange(0, p.len() as int) == p
}

/// `p` stands in `s` at position `i`.
pub open spec fn occurs_at(s: Seq<char>, p: Seq<char>, i: int) -> bool {
    0 <= i && i + p.len() <= s.len() && s.subrange(i, i + p.len()) == p
}

/// `p` is a substring of `s`.
pub open spec fn has_substring(s: Seq<char>, p: Seq<char>) -> bool {
    exists|i: int| occurs_at(s, p, i)
}

/// `s` without its leading whitespace.
pub open spec fn trim_start(s: Seq<char>) -> Seq<char>
    decreases s.len(),
{
    if s.len() > 0 && is_whitespace(s[0]) {
        trim_start(s.drop_first())
    } else {
        s
    }
}

/// `s` without its trailing whitespace.
pub open spec fn trim_end(s: Seq<char>) -> Seq<char>
    decreases s.len(),
{
    if s.len() > 0 && is_whitespace(s.last()) {
        trim_end(s.drop_last())
    } else {
        s
    }
}

/// `s` without the whitespace at either end.
pub open spec fn trim(s: Seq<char>) -> Seq<char> {
    trim_end(trim_start(s))
}

/// Every character of `s` is whitespace; the empty text is blank.
pub open spec fn is_blank(s: Seq<char>) -> bool {
    forall|i: int| 0 <= i < s.len() ==> is_whitespace(#[trigger] s[i])
}

/// What follows the first occurrence of `c` in `s`, if `c` occurs at all.
pub open spec fn after_first(s: Seq<char>, c: char) -> Option<Seq<char>>
    decreases s.len(),
{
    if s.len() == 0 {
        None
    } else if s[0] == c {
        Some(s.drop_first())
    } else {
        after_first(s.drop_first(), c)
    }
}

/// The position of the first line feed in `s`, or the length of `s` if it
/// holds none.
pub open spec fn first_line_feed(s: Seq<char>) -> nat
    decreases s.len(),
{
    if s.len() == 0 || s[0] == '\n' {
        0
    } else {
        1 + first_line_feed(s.drop_first())
    }
}

/// The lines of `s`: the pieces into which its line feeds part it, in
/// order. A line holds no line feed and anything else as written, a carriage
/// return too. A text without a line feed is one line; after a line feed at
/// the very end stands one more line, which is empty.
pub open spec fn split_lines(s: Seq<char>) -> Seq<Seq<char>>
    decreases s.len(),
{
    let n = first_line_feed(s) as int;
    if n >= s.len() {
        seq![s]
    } else {
        seq![s.subrange(0, n)] + split_lines(s.subrange(n + 1, s.len() as int))
    }
}

/// The texts of `parts` in order, with one line feed between neighbours.
pub open spec fn join_lines(parts: Seq<Seq<char>>) -> Seq<char>
    decreases parts.len(),
{
    if parts.len() == 0 {
        Seq::empty()
    } else if parts.len() == 1 {
        parts[0]
    } else {
        join_lines(parts.drop_last()) + seq!['\n'] + parts.last()
    }
}

/// The first line feed is the one position that holds a line feed and has
/// none before it.
pub proof fn lemma_first_line_feed(s: Seq<char>, n: int)
    requires
        0 <= n <= s.len(),
        forall|k: int| 0 <= k < n ==> s[k] != '\n',
        n < s.len() ==> s[n] == '\n',
    ensures
        first_line_feed(s) == n,
    decreases n,
{
    if n > 0 {
        lemma_first_line_feed(s.drop_first(), n - 1);
    }
}

/// A text is blank exactly when trimming leaves nothing of it.
pub proof fn lemma_blank_iff_trim_empty(s: Seq<char>)
    ensures
        is_blank(s) <==> trim(s).len() == 0,
    decreases s.len(),
{
    if s.len() > 0 && is_whitespace(s[0]) {
        lemma_blank_iff_trim_empty(s.drop_first());
        let t = s.drop_first();
        if is_blank(t) {
            assert forall|i: int| 0 <= i < s.len() implies is_whitespace(#[trigger] s[i]) by {
                if i > 0 {
                    assert(s[i] == t[i - 1]);
                }
            }
        }
        if is_blank(s) {
            assert forall|i: int| 0 <= i < t.len() implies is_whitespace(#[trigger] t[i]) by {
                assert(t[i] == s[i + 1]);
            }
        }
    } else if s.len() > 0 {
        lemma_trim_end_keeps_first(s);
    }
}

/// Trimming the end of a text that starts with a character that is no
/// whitespace leaves that character.
proof fn lemma_trim_end_keeps_first(s: Seq<char>)
    requires
        s.len() > 0,
        !is_whitespace(s[0]),
    ensures
        trim_end(s).len() > 0,
    decreases s.len(),
{
    if is_whitespace(s.last()) {
        lemma_trim_end_keeps_first(s.drop_last());
    }
}

/// Whether `p` stands at the start of `s[from..to]`.
pub fn has_prefix(s: &Vec<char>, from: usize, to: usize, p: &Vec<char>) -> (b: bool)
    requires
        from <= to <= s.len(),
    ensures
        b == starts_with(s@.subrange(from as int, to as int), p@),
{
    if p.len() > to - from {
        return false;
    }
    let ghost part = s@.subrange(from as int, to as int);
    let mut k: usize = 0;
    while k < p.len()
        invariant
            from <= to <= s.len(),
            p.len() <= to - from,
            k <= p.len(),
            part == s@.subrange(from as int, to as int),
            forall|j: int| 0 <= j < k ==> part[j] == p@[j],
        decreases p.len() - k,
    {
        if s[from + k] != p[k] {
            proof {
                assert(part[k as int] == s@[from + k]);
                assert(part.subrange(0, p@.len() as int)[k as int] != p@[k as int]);
            }
            return false;
        }
        assert(part[k as int] == s@[from + k]);
        k += 1;
    }
    assert(part.subrange(0, p@.len() as int) =~= p@);
    true
}

/// Whether `p` stands in `s` at position `i`.
fn found_at(s: &Vec<char>, p: &Vec<char>, i: usize) -> (b: bool)
    requires
        i + p.len() <= s.len(),
    ensures
        b == occurs_at(s@, p@, i as int),
{
    let mut k: usize = 0;
    while k < p.len()
        invariant
            i + p.len() <= s.len(),
            k <= p.len(),
            forall|j: int| 0 <= j < k ==> s@[i + j] == p@[j],
        decreases p.len() - k,
    {
        if s[i + k] != p[k] {
            assert(s@.subrange(i as int, i + p@.len())[k as int] != p@[k as int]);
            return false;
        }
        k += 1;
    }
    assert(s@.subrange(i as int, i + p@.len()) =~= p@);
    true
}

/// Whether `p` is a substring of `s`.
pub fn contains(s: &Vec<char>, p: &Vec<char>) -> (b: bool)
    ensures
        b == has_substring(s@, p@),
{
    if p.len() == 0 {
        assert(s@.subrange(0, 0) =~= p@);
        assert(occurs_at(s@, p@, 0));
        return true;
    }
    if p.len() > s.len() {
        return false;
    }
    let last: usize = s.len() - p.len();
    let mut i: usize = 0;
    while i <= last
        invariant
            last == s.len() - p.len(),
            p.len() > 0,
            i <= last + 1,
            forall|j: int| 0 <= j < i ==> !occurs_at(s@, p@, j),
        decreases last + 1 - i,
    {
        if found_at(s, p, i) {
            return true;
        }
        i += 1;
    }
    false
}

/// The bounds of `s[from..to]` without the whitespace at either end.
pub fn trim_range(s: &Vec<char>, from: usize, to: usize) -> (r: (usize, usize))
    requires
        from <= to <= s.len(),
    ensures
        from <= r.0 <= r.1 <= to,
        s@.subrange(r.0 as int, r.1 as int) == trim(s@.subrange(from as int, to as int)),
{
    let mut a: usize = from;
    while a < to && whitespace(s[a])
        invariant
            from <= a <= to <= s.len(),
            trim_start(s@.subrange(from as int, to as int)) == trim_start(
                s@.subrange(a as int, to as int),
            ),
        decreases to - a,
    {
        assert(s@.subrange(a as int, to as int).drop_first() == s@.subrange(a + 1, to as int));
        a += 1;
    }
    let mut b: usize = to;
    while a < b && whitespace(s[b - 1])
        invariant
            a <= b <= to <= s.len(),
            trim_end(s@.subrange(a as int, to as int)) == trim_end(s@.subrange(a as int, b as int)),
        decreases b - a,
    {
        assert(s@.subrange(a as int, b as int).drop_last() == s@.subrange(a as int, b - 1));
        b -= 1;
    }
    (a, b)
}

/// The position just behind the first `c` in `s[from..to]`, if there is one.
pub fn skip_first(s: &Vec<char>, from: usize, to: usize, c: char) -> (r: Option<usize>)
    requires
        from <= to <= s.len(),
    ensures
        match r {
            Some(next) => from < next <= to && after_first(
                s@.subrange(from as int, to as int),
                c,
            ) == Some(s@.subrange(next as int, to as int)),
            None => after_first(s@.subrange(from as int, to as int), c) is None,
        },
{
    let mut i: usize = from;
    while i < to
        invariant
            from <= i <= to <= s.len(),
            after_first(s@.subrange(from as int, to as int), c) == after_first(
                s@.subrange(i as int, to as int),
                c,
            ),
        decreases to - i,
    {
        assert(s@.subrange(i as int, to as int).drop_first() == s@.subrange(i + 1, to as int));
        if s[i] == c {
            return Some(i + 1);
        }
        i += 1;
    }
    None
}

/// Where the first line of `s[from..]` ends: at the first line feed, or at
/// the end of `s` if there is none.
pub fn line_end(s: &Vec<char>, from: usize) -> (end: usize)
    requires
        from <= s.len(),
    ensures
        from <= end <= s.len(),
        end == from + first_line_feed(s@.subrange(from as int, s.len() as int)),
        end == s.len() ==> split_lines(s@.subrange(from as int, s.len() as int)) == seq![
            s@.subrange(from as int, end as int),
        ],
        end < s.len() ==> split_lines(s@.subrange(from as int, s.len() as int)) == seq![
            s@.subrange(from as int, end as int),
        ] + split_lines(s@.subrange(end + 1, s.len() as int)),
{
    let ghost rest = s@.subrange(from as int, s.len() as int);
    let mut i: usize = from;
    while i < s.len() && s[i] != '\n'
        invariant
            from <= i <= s.len(),
            rest == s@.subrange(from as int, s.len() as int),
            forall|k: int| 0 <= k < i - from ==> rest[k] != '\n',
        decreases s.len() - i,
    {
        i += 1;
    }
    proof {
        lemma_first_line_feed(rest, i - from);
        if i == s.len() {
            assert(rest =~= s@.subrange(from as int, i as int));
        } else {
            assert(rest.subrange(0, i - from) =~= s@.subrange(from as int, i as int));
            assert(rest.subrange(i - from + 1, rest.len() as int) =~= s@.subrange(
                i + 1,
                s.len() as int,
            ));
        }
    }
    i
}

} // verus!
