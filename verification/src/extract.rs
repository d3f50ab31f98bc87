//! What is evaluated of a diff, and the intent that a text declares for
//! itself.

use crate::chars::chars_of;
use crate::chars::lowercase;
use crate::chars::push_char;
use crate::chars::string_of;
use crate::chars::to_lower;
use crate::text::after_first;
use crate::text::has_prefix;
use crate::text::join_lines;
use crate::text::line_end;
use crate::text::skip_first;
use crate::text::split_lines;
use crate::text::starts_with;
use crate::text::trim;
use crate::text::trim_range;
use vstd::prelude::*;

verus! {

/// The marker that opens a file header line of a diff.
pub open spec fn header_marker() -> Seq<char> {
    seq!['+', '+', '+']
}

/// What a line of a diff adds: nothing if it is a file header line, else what
/// follows its leading `+`, if it has one.
pub open spec fn added_text(line: Seq<char>) -> Option<Seq<char>> {
    if starts_with(line, header_marker()) {
        None
    } else if line.len() > 0 && line[0] == '+' {
        Some(line.drop_first())
    } else {
        None
    }
}

/// What the lines of a diff add, in their order.
pub open spec fn added_texts(lines: Seq<Seq<char>>) -> Seq<Seq<char>>
    decreases lines.len(),
{
    if lines.len() == 0 {
        Seq::empty()
    } else {
        let before = added_texts(lines.drop_last());
        match added_text(lines.last()) {
            Some(t) => before.push(t),
            None => before,
        }
    }
}

/// The added lines of a diff, each without its leading `+`, joined by line
/// feeds.
pub open spec fn added_lines(diff: Seq<char>) -> Seq<char> {
    join_lines(added_texts(split_lines(diff)))
}

/// The first of the two prefixes that mark an intent line.
pub open spec fn intent_prefix() -> Seq<char> {
    "intent:"@
}

/// The second of the two prefixes that mark an intent line.
pub open spec fn gl_intent_prefix() -> Seq<char> {
    "gl-intent:"@
}

/// A line that reads `lowered` in lower case marks an intent: it starts with
/// one of the two prefixes.
pub open spec fn marks_intent(lowered: Seq<char>) -> bool {
    starts_with(lowered, intent_prefix()) || starts_with(lowered, gl_intent_prefix())
}

/// What a line holds behind its first colon, trimmed and as written; nothing
/// if it holds no colon.
pub open spec fn intent_value(line: Seq<char>) -> Option<Seq<char>> {
    match after_first(line, ':') {
        Some(rest) => Some(trim(rest)),
        None => None,
    }
}

/// What a trimmed line says of the intent, given its lower-case form: `None`
/// if it marks no intent, else its intent value.
pub open spec fn line_intent_of(trimmed: Seq<char>, lowered: Seq<char>) -> Option<
    Option<Seq<char>>,
> {
    if marks_intent(lowered) {
        Some(intent_value(trimmed))
    } else {
        None
    }
}

/// The intent value of the first intent line among `lines`.
pub open spec fn first_intent(lines: Seq<Seq<char>>) -> Option<Seq<char>>
    decreases lines.len(),
{
    if lines.len() == 0 {
        None
    } else {
        match line_intent_of(trim(lines[0]), lowercase(trim(lines[0]))) {
            Some(value) => value,
            None => first_intent(lines.drop_first()),
        }
    }
}

/// The intent that `text` declares in one of its lines.
pub open spec fn declared_intent(text: Seq<char>) -> Option<Seq<char>> {
    first_intent(split_lines(text))
}

/// The text of an optional string.
pub open spec fn text_of_owned(s: Option<String>) -> Option<Seq<char>> {
    match s {
        Some(s) => Some(s@),
        None => None,
    }
}

/// Appends `v[from..to]` to `out`.
fn push_range(out: &mut String, v: &Vec<char>, from: usize, to: usize)
    requires
        from <= to <= v.len(),
    ensures
        final(out)@ == old(out)@ + v@.subrange(from as int, to as int),
{
    let mut i: usize = from;
    while i < to
        invariant
            from <= i <= to <= v.len(),
            out@ == old(out)@ + v@.subrange(from as int, i as int),
        decreases to - i,
    {
        push_char(out, v[i]);
        assert(out@ =~= old(out)@ + v@.subrange(from as int, i + 1));
        i += 1;
    }
}

/// Where the added text of the line `s[from..to]` starts, if the line adds
/// any.
fn added_start(s: &Vec<char>, from: usize, to: usize) -> (r: Option<usize>)
    requires
        from <= to <= s.len(),
    ensures
        match r {
            Some(start) => from < start <= to && added_text(s@.subrange(from as int, to as int))
                == Some(s@.subrange(start as int, to as int)),
            None => added_text(s@.subrange(from as int, to as int)) is None,
        },
{
    let ghost line = s@.subrange(from as int, to as int);
    if from == to || s[from] != '+' {
        proof {
            if to - from >= 3 {
                assert(line[0] == s@[from as int]);
                assert(line.subrange(0, 3)[0] == line[0]);
            }
        }
        return None;
    }
    assert(line[0] == '+');
    if to - from >= 3 && s[from + 1] == '+' && s[from + 2] == '+' {
        proof {
            assert(line[1] == s@[from + 1]);
            assert(line[2] == s@[from + 2]);
            assert(line.subrange(0, 3) =~= header_marker());
        }
        return None;
    }
    proof {
        if to - from >= 3 {
            assert(line[1] == s@[from + 1]);
            assert(line[2] == s@[from + 2]);
            assert(line.subrange(0, 3)[1] == line[1]);
            assert(line.subrange(0, 3)[2] == line[2]);
        }
        assert(line.drop_first() =~= s@.subrange(from + 1, to as int));
    }
    Some(from + 1)
}

/// The text to evaluate of a diff: its added lines without their leading `+`,
/// joined by line feeds. File header lines, which start with `+++`, add
/// nothing.
pub fn extract_added_lines(diff: &str) -> (out: String)
    ensures
        out@ == added_lines(diff@),
{
    let s = chars_of(diff);
    let mut out = String::new();
    let mut any = false;
    let mut pos: usize = 0;
    let mut more = true;
    let ghost mut seen: Seq<Seq<char>> = Seq::empty();
    assert(s@.subrange(0, s.len() as int) =~= s@);
    while more
        invariant
            pos <= s.len(),
            s@ == diff@,
            more ==> split_lines(s@) == seen + split_lines(
                s@.subrange(pos as int, s.len() as int),
            ),
            !more ==> split_lines(s@) == seen,
            out@ == join_lines(added_texts(seen)),
            any == (added_texts(seen).len() > 0),
        decreases s.len() - pos + (if more { 1int } else { 0int }),
    {
        let end = line_end(&s, pos);
        let ghost line = s@.subrange(pos as int, end as int);
        proof {
            if end < s.len() {
                let rest = split_lines(s@.subrange(end + 1, s.len() as int));
                assert(seen + (seq![line] + rest) =~= seen.push(line) + rest);
            } else {
                assert(seen + seq![line] =~= seen.push(line));
            }
            assert(seen.push(line).drop_last() =~= seen);
        }
        match added_start(&s, pos, end) {
            Some(start) => {
                let ghost kept = added_texts(seen);
                if any {
                    push_char(&mut out, '\n');
                }
                push_range(&mut out, &s, start, end);
                proof {
                    let added = s@.subrange(start as int, end as int);
                    assert(kept.push(added).drop_last() =~= kept);
                    if kept.len() == 0 {
                        assert(out@ =~= added);
                    } else {
                        assert(out@ =~= join_lines(kept) + seq!['\n'] + added);
                    }
                }
                any = true;
            },
            None => {},
        }
        proof {
            seen = seen.push(line);
        }
        if end < s.len() {
            pos = end + 1;
        } else {
            more = false;
        }
    }
    out
}

/// What a trimmed line says of the intent, given its lower-case form: `None`
/// if that form starts with neither `intent:` nor `gl-intent:`; else what the
/// line holds behind its first colon, trimmed and as written.
pub fn line_intent(trimmed: &str, lowered: &str) -> (found: Option<Option<String>>)
    ensures
        match found {
            Some(value) => line_intent_of(trimmed@, lowered@) == Some(text_of_owned(value)),
            None => line_intent_of(trimmed@, lowered@) is None,
        },
{
    let low = chars_of(lowered);
    let first = chars_of("intent:");
    let second = chars_of("gl-intent:");
    assert(low@.subrange(0, low.len() as int) =~= low@);
    if !has_prefix(&low, 0, low.len(), &first) && !has_prefix(&low, 0, low.len(), &second) {
        return None;
    }
    let line = chars_of(trimmed);
    assert(line@.subrange(0, line.len() as int) =~= line@);
    match skip_first(&line, 0, line.len(), ':') {
        Some(after) => {
            let (a, b) = trim_range(&line, after, line.len());
            Some(Some(string_of(&line, a, b)))
        },
        None => Some(None),
    }
}

/// The intent that `text` declares: of the first line that, trimmed and in
/// lower case, starts with `intent:` or `gl-intent:`, what stands behind the
/// first colon, trimmed and as written.
pub fn extract_intent_from_text(text: &str) -> (intent: Option<String>)
    ensures
        text_of_owned(intent) == declared_intent(text@),
{
    let s = chars_of(text);
    let mut pos: usize = 0;
    let mut more = true;
    assert(s@.subrange(0, s.len() as int) =~= s@);
    while more
        invariant
            pos <= s.len(),
            s@ == text@,
            more ==> declared_intent(text@) == first_intent(
                split_lines(s@.subrange(pos as int, s.len() as int)),
            ),
            !more ==> declared_intent(text@) is None,
        decreases s.len() - pos + (if more { 1int } else { 0int }),
    {
        let end = line_end(&s, pos);
        let ghost line = s@.subrange(pos as int, end as int);
        proof {
            if end < s.len() {
                let rest = split_lines(s@.subrange(end + 1, s.len() as int));
                assert((seq![line] + rest)[0] == line);
                assert((seq![line] + rest).drop_first() =~= rest);
            } else {
                assert(seq![line][0] == line);
                assert(seq![line].drop_first() =~= Seq::<Seq<char>>::empty());
                assert(first_intent(Seq::<Seq<char>>::empty()) is None);
            }
        }
        let (a, b) = trim_range(&s, pos, end);
        let trimmed = string_of(&s, a, b);
        let lowered = to_lower(trimmed.as_str());
        match line_intent(trimmed.as_str(), lowered.as_str()) {
            Some(value) => {
                return value;
            },
            None => {},
        }
        if end < s.len() {
            pos = end + 1;
        } else {
            more = false;
        }
    }
    None
}

} // verus!
