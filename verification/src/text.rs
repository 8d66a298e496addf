//! Character-level helpers shared by the token grammars and the override
//! parser.

use vstd::prelude::*;

verus! {

/// Collects the characters of `s` into a vector.
pub fn chars_of(s: &str) -> (out: Vec<char>)
    ensures
        out@ == s@,
{
    let mut out: Vec<char> = Vec::new();
    for c in it: s.chars()
        invariant
            out@ == it.seq().take(it.index() as int),
    {
        out.push(c);
    }
    out
}

/// Whether the characters `s[from..to]` spell exactly the text `name`.
pub fn spells(s: &Vec<char>, from: usize, to: usize, name: &str) -> (r: bool)
    requires
        from <= to <= s.len(),
    ensures
        r == (s@.subrange(from as int, to as int) == name@),
{
    let mut i: usize = from;
    let mut ok = true;
    for c in it: name.chars()
        invariant
            from <= to <= s.len(),
            from <= i <= to,
            ok ==> i - from == it.index(),
            ok ==> s@.subrange(from as int, i as int) == it.seq().take(it.index() as int),
            !ok ==> s@.subrange(from as int, to as int) != it.seq(),
    {
        if ok {
            if i < to && s[i] == c {
                i += 1;
            } else {
                ok = false;
            }
        }
    }
    proof {
        if ok && i == to {
            assert(s@.subrange(from as int, to as int) == name@);
        }
    }
    ok && i == to
}

/// Whether `c` is white space: one of the characters that Unicode marks as
/// `White_Space`.
#[verifier::allow_in_spec]
pub fn is_space(c: char) -> bool
    returns
        ('\u{9}' <= c && c <= '\u{d}') || c == ' ' || c == '\u{85}' || c == '\u{a0}' || c
            == '\u{1680}' || ('\u{2000}' <= c && c <= '\u{200a}') || c == '\u{2028}' || c
            == '\u{2029}' || c == '\u{202f}' || c == '\u{205f}' || c == '\u{3000}',
{
    ('\u{9}' <= c && c <= '\u{d}') || c == ' ' || c == '\u{85}' || c == '\u{a0}' || c
        == '\u{1680}' || ('\u{2000}' <= c && c <= '\u{200a}') || c == '\u{2028}' || c
        == '\u{2029}' || c == '\u{202f}' || c == '\u{205f}' || c == '\u{3000}'
}

/// `s` without its leading white space.
pub open spec fn trim_start(s: Seq<char>) -> Seq<char>
    decreases s.len(),
{
    if s.len() > 0 && is_space(s[0]) {
        trim_start(s.drop_first())
    } else {
        s
    }
}

/// `s` without its trailing white space.
pub open spec fn trim_end(s: Seq<char>) -> Seq<char>
    decreases s.len(),
{
    if s.len() > 0 && is_space(s.last()) {
        trim_end(s.drop_last())
    } else {
        s
    }
}

/// `s` without the white space at either end.
pub open spec fn trim(s: Seq<char>) -> Seq<char> {
    trim_end(trim_start(s))
}

/// The bounds of `s[from..to]` once trimmed of white space at either end.
pub fn trim_span(s: &Vec<char>, from: usize, to: usize) -> (span: (usize, usize))
    requires
        from <= to <= s.len(),
    ensures
        from <= span.0 <= span.1 <= to,
        s@.subrange(span.0 as int, span.1 as int) == trim(s@.subrange(from as int, to as int)),
{
    let mut a: usize = from;
    while a < to && is_space(s[a])
        invariant
            from <= a <= to <= s.len(),
            trim_start(s@.subrange(from as int, to as int)) == trim_start(
                s@.subrange(a as int, to as int),
            ),
        decreases to - a,
    {
        proof {
            assert(s@.subrange(a as int, to as int).drop_first() =~= s@.subrange(
                a + 1,
                to as int,
            ));
        }
        a += 1;
    }
    let mut b: usize = to;
    while a < b && is_space(s[b - 1])
        invariant
            a <= b <= to <= s.len(),
            trim_end(s@.subrange(a as int, to as int)) == trim_end(
                s@.subrange(a as int, b as int),
            ),
        decreases b - a,
    {
        proof {
            assert(s@.subrange(a as int, b as int).drop_last() =~= s@.subrange(
                a as int,
                b - 1,
            ));
        }
        b -= 1;
    }
    (a, b)
}

/// The position of the first `c` in `s`, or the length of `s` if there is
/// none.
pub open spec fn first_index_of(s: Seq<char>, c: char) -> nat
    decreases s.len(),
{
    if s.len() == 0 || s[0] == c {
        0
    } else {
        1 + first_index_of(s.drop_first(), c)
    }
}

/// The position of the first `c` in `s[from..to]`, counted from the start of
/// `s`, or `to` if there is none.
pub fn find_first(s: &Vec<char>, from: usize, to: usize, c: char) -> (at: usize)
    requires
        from <= to <= s.len(),
    ensures
        from <= at <= to,
        at - from == first_index_of(s@.subrange(from as int, to as int), c),
        at < to ==> s@[at as int] == c,
        forall|j: int| from <= j < at ==> s@[j] != c,
{
    let mut at: usize = from;
    while at < to && s[at] != c
        invariant
            from <= at <= to <= s.len(),
            first_index_of(s@.subrange(from as int, to as int), c) == (at - from)
                + first_index_of(s@.subrange(at as int, to as int), c),
            forall|j: int| from <= j < at ==> s@[j] != c,
        decreases to - at,
    {
        proof {
            assert(s@.subrange(at as int, to as int).drop_first() =~= s@.subrange(
                at + 1,
                to as int,
            ));
        }
        at += 1;
    }
    at
}

/// `line` without one carriage return at its end, if it has one.
pub open spec fn without_carriage_return(line: Seq<char>) -> Seq<char> {
    if line.len() > 0 && line.last() == '\r' {
        line.drop_last()
    } else {
        line
    }
}

/// The lines of `text`. A line ends at a line feed, or at a carriage return
/// directly followed by one; the terminator is no part of the line. The last
/// line needs no terminator, and a terminator at the very end of the text
/// does not start another, empty line.
pub open spec fn lines_of(text: Seq<char>) -> Seq<Seq<char>>
    decreases text.len(),
{
    if text.len() == 0 {
        Seq::empty()
    } else {
        let end = first_index_of(text, '\n');
        if end >= text.len() {
            seq![text]
        } else {
            seq![without_carriage_return(text.take(end as int))] + lines_of(
                text.skip(end as int + 1),
            )
        }
    }
}

/// The bounds of each line of `text`, in order.
pub fn split_lines(text: &Vec<char>) -> (spans: Vec<(usize, usize)>)
    ensures
        spans@.len() == lines_of(text@).len(),
        forall|i: int|
            0 <= i < spans@.len() ==> {
                let (from, to) = #[trigger] spans@[i];
                from <= to <= text@.len() && text@.subrange(from as int, to as int) == lines_of(
                    text@,
                )[i]
            },
{
    let mut spans: Vec<(usize, usize)> = Vec::new();
    let mut pos: usize = 0;
    let ghost mut seen: Seq<Seq<char>> = Seq::empty();
    proof {
        assert(text@.skip(0) =~= text@);
    }
    while pos < text.len()
        invariant
            pos <= text.len(),
            spans@.len() == seen.len(),
            lines_of(text@) == seen + lines_of(text@.skip(pos as int)),
            forall|i: int|
                0 <= i < spans@.len() ==> {
                    let (from, to) = #[trigger] spans@[i];
                    from <= to <= text@.len() && text@.subrange(from as int, to as int) == seen[i]
                },
        decreases text.len() - pos,
    {
        let ghost rest = text@.skip(pos as int);
        let end = find_first(text, pos, text.len(), '\n');
        proof {
            assert(rest.take(end - pos) =~= text@.subrange(pos as int, end as int));
        }
        let stop = if end < text.len() && pos < end && text[end - 1] == '\r' {
            end - 1
        } else {
            end
        };
        let ghost line = text@.subrange(pos as int, stop as int);
        proof {
            if end < text.len() {
                let raw = text@.subrange(pos as int, end as int);
                assert(line == without_carriage_return(raw));
                assert(rest.skip(end - pos + 1) =~= text@.skip(end + 1));
            }
            seen = seen.push(line);
        }
        spans.push((pos, stop));
        if end < text.len() {
            pos = end + 1;
        } else {
            pos = end;
        }
    }
    spans
}

} // verus!
