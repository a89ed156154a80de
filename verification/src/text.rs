//! Text as sequences of characters: conversion between strings and character
//! vectors, lines, joining, prefixes and leading white space.
//!
//! A string is modelled by its view, a `Seq<char>`. The functions here work on
//! `Vec<char>`, whose view is the same kind of sequence, so that every step
//! can be stated and proved over sequences.

use vstd::prelude::*;

verus! {

/// Appends one character to a string. Stands for `String::push`, which
/// appends the given character to the end of the string and changes nothing
/// else.
#[verifier::external_body]
fn push_char(s: &mut String, c: char)
    ensures
        final(s)@ == old(s)@.push(c),
{
    s.push(c)
}

/// The characters of `s`, in order.
pub fn to_chars(s: &str) -> (chars: Vec<char>)
    ensures
        chars@ == s@,
{
    let mut chars: Vec<char> = Vec::new();
    for c in it: s.chars()
        invariant
            chars@ == it.seq().take(it.index() as int),
            it.seq() == s@,
    {
        chars.push(c);
    }
    chars
}

/// The string made of the characters of `chars`, in order.
pub fn from_chars(chars: &Vec<char>) -> (s: String)
    ensures
        s@ == chars@,
{
    let mut s = String::new();
    let mut i: usize = 0;
    while i < chars.len()
        invariant
            i <= chars.len(),
            s@ == chars@.take(i as int),
        decreases chars.len() - i,
    {
        push_char(&mut s, chars[i]);
        i += 1;
    }
    s
}

/// Whether `c` is white space: a character with the Unicode property
/// `White_Space`, which is what `char::is_whitespace` tests.
pub open spec fn is_white_space(c: char) -> bool {
    let u = c as u32;
    ||| 0x09 <= u <= 0x0d
    ||| u == 0x20
    ||| u == 0x85
    ||| u == 0xa0
    ||| u == 0x1680
    ||| 0x2000 <= u <= 0x200a
    ||| u == 0x2028
    ||| u == 0x2029
    ||| u == 0x202f
    ||| u == 0x205f
    ||| u == 0x3000
}

/// `s` without its leading white space.
pub open spec fn trimmed_start(s: Seq<char>) -> Seq<char>
    decreases s.len(),
{
    if s.len() > 0 && is_white_space(s[0]) {
        trimmed_start(s.drop_first())
    } else {
        s
    }
}

/// `s` without its trailing white space.
pub open spec fn trimmed_end(s: Seq<char>) -> Seq<char>
    decreases s.len(),
{
    if s.len() > 0 && is_white_space(s.last()) {
        trimmed_end(s.drop_last())
    } else {
        s
    }
}

/// `s` without white space at either end, as `str::trim` gives it.
pub open spec fn trimmed(s: Seq<char>) -> Seq<char> {
    trimmed_end(trimmed_start(s))
}

/// `s` without the run of `c` at its start, as `str::trim_start_matches`
/// gives it for a character.
pub open spec fn without_leading(s: Seq<char>, c: char) -> Seq<char>
    decreases s.len(),
{
    if s.len() > 0 && s[0] == c {
        without_leading(s.drop_first(), c)
    } else {
        s
    }
}

/// `s` without the run of `c` at its end, as `str::trim_end_matches` gives
/// it for a character.
pub open spec fn without_trailing(s: Seq<char>, c: char) -> Seq<char>
    decreases s.len(),
{
    if s.len() > 0 && s.last() == c {
        without_trailing(s.drop_last(), c)
    } else {
        s
    }
}

/// Number of characters of `s` before its first line feed; the length of `s`
/// where it holds none.
pub open spec fn line_end(s: Seq<char>) -> nat
    decreases s.len(),
{
    if s.len() == 0 || s[0] == '\n' {
        0
    } else {
        1 + line_end(s.drop_first())
    }
}

/// `line` without one carriage return at its end, if it ends in one.
pub open spec fn without_cr(line: Seq<char>) -> Seq<char> {
    if line.len() > 0 && line.last() == '\r' {
        line.drop_last()
    } else {
        line
    }
}

/// The lines of `s`. A line ends at a line feed, or at a carriage return
/// directly followed by a line feed; the ending is not part of the line. What
/// follows the last line feed is a line too, taken as it stands, unless it is
/// empty: a final line ending opens no further line. This is how
/// `str::lines` splits a string.
pub open spec fn lines_of(s: Seq<char>) -> Seq<Seq<char>>
    decreases s.len(),
{
    if s.len() == 0 {
        Seq::empty()
    } else {
        let k = line_end(s) as int;
        if k >= s.len() {
            seq![s]
        } else {
            seq![without_cr(s.take(k))] + lines_of(s.skip(k + 1))
        }
    }
}

/// `lines` with one line feed between each two neighbours.
pub open spec fn joined(lines: Seq<Seq<char>>) -> Seq<char>
    decreases lines.len(),
{
    if lines.len() == 0 {
        Seq::empty()
    } else if lines.len() == 1 {
        lines[0]
    } else {
        joined(lines.drop_last()) + seq!['\n'] + lines.last()
    }
}

/// The views of the vectors of `lines`, in order.
pub open spec fn lines_view(lines: Seq<Vec<char>>) -> Seq<Seq<char>> {
    Seq::new(lines.len(), |i: int| lines[i]@)
}

/// `line_end(s)` is the one position up to which `s` holds no line feed and
/// at which it holds one or ends.
pub proof fn lemma_line_end_unique(s: Seq<char>, k: int)
    requires
        0 <= k <= s.len(),
        forall|j: int| 0 <= j < k ==> s[j] != '\n',
        k < s.len() ==> s[k] == '\n',
    ensures
        line_end(s) == k,
    decreases s.len(),
{
    if k > 0 {
        lemma_line_end_unique(s.drop_first(), k - 1);
    }
}

/// Whether `c` is white space.
pub fn is_space(c: char) -> (b: bool)
    ensures
        b == is_white_space(c),
{
    let u: u32 = c as u32;
    (0x09 <= u && u <= 0x0d) || u == 0x20 || u == 0x85 || u == 0xa0 || u == 0x1680 || (0x2000 <= u
        && u <= 0x200a) || u == 0x2028 || u == 0x2029 || u == 0x202f || u == 0x205f || u == 0x3000
}

/// Whether `line` begins with `prefix`.
pub fn has_prefix(line: &Vec<char>, prefix: &Vec<char>) -> (b: bool)
    ensures
        b == prefix@.is_prefix_of(line@),
{
    if prefix.len() > line.len() {
        return false;
    }
    let mut i: usize = 0;
    while i < prefix.len()
        invariant
            i <= prefix.len() <= line.len(),
            forall|j: int| 0 <= j < i ==> prefix@[j] == line@[j],
        decreases prefix.len() - i,
    {
        if prefix[i] != line[i] {
            assert(prefix@[i as int] != line@.subrange(0, prefix@.len() as int)[i as int]);
            return false;
        }
        i += 1;
    }
    assert(prefix@ =~= line@.subrange(0, prefix@.len() as int));
    true
}

/// Appends the characters of `tail` to `text`.
pub fn append_chars(text: &mut Vec<char>, tail: &Vec<char>)
    ensures
        final(text)@ == old(text)@ + tail@,
{
    let ghost head = text@;
    let mut j: usize = 0;
    while j < tail.len()
        invariant
            j <= tail.len(),
            text@ == head + tail@.take(j as int),
        decreases tail.len() - j,
    {
        text.push(tail[j]);
        assert(tail@.take(j + 1) =~= tail@.take(j as int).push(tail@[j as int]));
        j += 1;
    }
    assert(tail@.take(tail@.len() as int) =~= tail@);
}

/// The part of `line` from position `from` on.
pub fn suffix(line: &Vec<char>, from: usize) -> (rest: Vec<char>)
    requires
        from <= line.len(),
    ensures
        rest@ == line@.skip(from as int),
{
    let mut rest: Vec<char> = Vec::new();
    let mut j: usize = from;
    while j < line.len()
        invariant
            from <= j <= line.len(),
            rest@ == line@.subrange(from as int, j as int),
        decreases line.len() - j,
    {
        rest.push(line[j]);
        assert(rest@ =~= line@.subrange(from as int, j + 1));
        j += 1;
    }
    assert(rest@ =~= line@.skip(from as int));
    rest
}

/// The part of `line` from position `from` on, without its leading white
/// space.
pub fn trim_start_from(line: &Vec<char>, from: usize) -> (rest: Vec<char>)
    requires
        from <= line.len(),
    ensures
        rest@ == trimmed_start(line@.skip(from as int)),
{
    let mut i: usize = from;
    while i < line.len() && is_space(line[i])
        invariant
            from <= i <= line.len(),
            trimmed_start(line@.skip(from as int)) == trimmed_start(line@.skip(i as int)),
        decreases line.len() - i,
    {
        assert(line@.skip(i as int).drop_first() =~= line@.skip(i + 1));
        i += 1;
    }
    suffix(line, i)
}

/// `line` without white space at either end.
pub fn trim(line: &Vec<char>) -> (rest: Vec<char>)
    ensures
        rest@ == trimmed(line@),
{
    let mut rest = trim_start_from(line, 0);
    assert(line@.skip(0) =~= line@);
    let ghost whole = rest@;
    while rest.len() > 0 && is_space(rest[rest.len() - 1])
        invariant
            trimmed_end(rest@) == trimmed_end(whole),
        decreases rest.len(),
    {
        rest.pop();
    }
    rest
}

/// `line` without the run of `c` at its start.
pub fn skip_leading(line: &Vec<char>, c: char) -> (rest: Vec<char>)
    ensures
        rest@ == without_leading(line@, c),
{
    let mut i: usize = 0;
    assert(line@.skip(0) =~= line@);
    while i < line.len() && line[i] == c
        invariant
            i <= line.len(),
            without_leading(line@, c) == without_leading(line@.skip(i as int), c),
        decreases line.len() - i,
    {
        assert(line@.skip(i as int).drop_first() =~= line@.skip(i + 1));
        i += 1;
    }
    suffix(line, i)
}

/// `line` without the run of `c` at its end.
pub fn drop_trailing(line: Vec<char>, c: char) -> (rest: Vec<char>)
    ensures
        rest@ == without_trailing(line@, c),
{
    let mut rest = line;
    while rest.len() > 0 && rest[rest.len() - 1] == c
        invariant
            without_trailing(rest@, c) == without_trailing(line@, c),
        decreases rest.len(),
    {
        rest.pop();
    }
    rest
}

/// The lines of `text`.
pub fn split_lines(text: &Vec<char>) -> (lines: Vec<Vec<char>>)
    ensures
        lines_view(lines@) == lines_of(text@),
{
    let mut lines: Vec<Vec<char>> = Vec::new();
    let mut cur: Vec<char> = Vec::new();
    let ghost mut start: int = 0;
    let mut i: usize = 0;
    assert(text@.skip(0) =~= text@);
    assert(lines_view(lines@) + lines_of(text@) =~= lines_of(text@));
    while i < text.len()
        invariant
            0 <= start <= i <= text.len(),
            cur@ == text@.subrange(start, i as int),
            forall|j: int| start <= j < i ==> text@[j] != '\n',
            lines_of(text@) == lines_view(lines@) + lines_of(text@.skip(start)),
        decreases text.len() - i,
    {
        let c = text[i];
        if c == '\n' {
            proof {
                let rest = text@.skip(start);
                lemma_line_end_unique(rest, i - start);
                assert(rest.take(i - start) =~= cur@);
                assert(rest.skip(i - start + 1) =~= text@.skip(i + 1));
            }
            let n = cur.len();
            if n > 0 && cur[n - 1] == '\r' {
                cur.pop();
            }
            let ghost before = lines_view(lines@);
            lines.push(cur);
            assert(lines_view(lines@) =~= before + seq![cur@]);
            cur = Vec::new();
            proof {
                start = i + 1;
                assert(cur@ =~= text@.subrange(start, i + 1));
                assert(before + (seq![lines@.last()@] + lines_of(text@.skip(start))) =~= before
                    + seq![lines@.last()@] + lines_of(text@.skip(start)));
            }
        } else {
            cur.push(c);
            assert(cur@ =~= text@.subrange(start, i + 1));
        }
        i += 1;
    }
    proof {
        let rest = text@.skip(start);
        assert(rest =~= cur@);
        if rest.len() > 0 {
            lemma_line_end_unique(rest, rest.len() as int);
        }
    }
    if cur.len() > 0 {
        let ghost before = lines_view(lines@);
        lines.push(cur);
        assert(lines_view(lines@) =~= before + seq![cur@]);
    } else {
        assert(lines_view(lines@) + Seq::<Seq<char>>::empty() =~= lines_view(lines@));
    }
    lines
}

/// The lines `lines[from..]`, with one line feed between each two neighbours.
pub fn join_lines(lines: &Vec<Vec<char>>, from: usize) -> (text: Vec<char>)
    requires
        from <= lines.len(),
    ensures
        text@ == joined(lines_view(lines@).skip(from as int)),
{
    let mut text: Vec<char> = Vec::new();
    let mut i: usize = from;
    let ghost all = lines_view(lines@).skip(from as int);
    while i < lines.len()
        invariant
            from <= i <= lines.len(),
            all == lines_view(lines@).skip(from as int),
            text@ == joined(all.take(i - from)),
        decreases lines.len() - i,
    {
        if i > from {
            text.push('\n');
        }
        let line = &lines[i];
        let ghost head = text@;
        append_chars(&mut text, line);
        proof {
            let upto = all.take(i + 1 - from);
            assert(upto.drop_last() =~= all.take(i - from));
            assert(upto.last() == line@);
            if i == from {
                assert(head =~= Seq::<char>::empty());
                assert(text@ =~= line@);
            }
        }
        i += 1;
    }
    assert(all.take(lines.len() - from) =~= all);
    text
}

/// `line` holds no line feed.
pub open spec fn no_line_feed(line: Seq<char>) -> bool {
    forall|j: int| 0 <= j < line.len() ==> line[j] != '\n'
}

/// None of `lines` holds a line feed.
pub open spec fn no_line_feeds(lines: Seq<Seq<char>>) -> bool {
    forall|i: int| 0 <= i < lines.len() ==> no_line_feed(#[trigger] lines[i])
}

/// `text` holds no carriage return.
pub open spec fn no_carriage_return(text: Seq<char>) -> bool {
    forall|j: int| 0 <= j < text.len() ==> text[j] != '\r'
}

/// None of `lines` ends in a carriage return.
pub open spec fn no_line_ends_in_cr(lines: Seq<Seq<char>>) -> bool {
    forall|i: int| 0 <= i < lines.len() ==> without_cr(#[trigger] lines[i]) == lines[i]
}

/// None of `lines` but the last ends in a carriage return.
pub open spec fn no_inner_line_ends_in_cr(lines: Seq<Seq<char>>) -> bool {
    forall|i: int| 0 <= i < lines.len() - 1 ==> without_cr(#[trigger] lines[i]) == lines[i]
}

/// `line_end(s)` lies within `s`; before it `s` holds no line feed, and at
/// it `s` holds one unless it ends there.
pub proof fn lemma_line_end_bounds(s: Seq<char>)
    ensures
        line_end(s) <= s.len(),
        forall|j: int| 0 <= j < line_end(s) ==> s[j] != '\n',
        line_end(s) < s.len() ==> s[line_end(s) as int] == '\n',
    decreases s.len(),
{
    if s.len() > 0 && s[0] != '\n' {
        lemma_line_end_bounds(s.drop_first());
        assert forall|j: int| 0 <= j < line_end(s) implies s[j] != '\n' by {
            if j > 0 {
                assert(s[j] == s.drop_first()[j - 1]);
            }
        }
    }
}

/// A text that begins with a line without line feeds, followed by a line
/// feed, has that line as its first, less a carriage return at its end, and
/// then the lines of what follows.
pub proof fn lemma_lines_after_first(line: Seq<char>, rest: Seq<char>)
    requires
        no_line_feed(line),
    ensures
        lines_of(line + seq!['\n'] + rest) == seq![without_cr(line)] + lines_of(rest),
{
    let s = line + seq!['\n'] + rest;
    let k = line.len() as int;
    assert(s[k] == '\n');
    assert forall|j: int| 0 <= j < k implies s[j] != '\n' by {
        assert(s[j] == line[j]);
    }
    lemma_line_end_unique(s, k);
    assert(s.take(k) =~= line);
    assert(s.skip(k + 1) =~= rest);
}

/// No line of a text holds a line feed.
pub proof fn lemma_lines_hold_no_line_feed(s: Seq<char>)
    ensures
        no_line_feeds(lines_of(s)),
    decreases s.len(),
{
    if s.len() > 0 {
        lemma_line_end_bounds(s);
        let k = line_end(s) as int;
        if k < s.len() {
            lemma_lines_hold_no_line_feed(s.skip(k + 1));
            let rest = lines_of(s.skip(k + 1));
            assert(no_line_feed(without_cr(s.take(k))));
            assert forall|i: int| 0 <= i < lines_of(s).len() implies no_line_feed(
                #[trigger] lines_of(s)[i],
            ) by {
                if i > 0 {
                    assert(lines_of(s)[i] == rest[i - 1]);
                }
            }
        } else {
            assert(no_line_feed(s));
        }
    }
}

/// Where a text holds no carriage return, none of its lines ends in one.
pub proof fn lemma_lines_keep_no_cr(s: Seq<char>)
    requires
        no_carriage_return(s),
    ensures
        no_line_ends_in_cr(lines_of(s)),
    decreases s.len(),
{
    if s.len() > 0 {
        lemma_line_end_bounds(s);
        let k = line_end(s) as int;
        if k < s.len() {
            lemma_lines_keep_no_cr(s.skip(k + 1));
            let rest = lines_of(s.skip(k + 1));
            let first = without_cr(s.take(k));
            assert(without_cr(first) == first);
            assert forall|i: int| 0 <= i < lines_of(s).len() implies without_cr(
                #[trigger] lines_of(s)[i],
            ) == lines_of(s)[i] by {
                if i > 0 {
                    assert(lines_of(s)[i] == rest[i - 1]);
                }
            }
        }
    }
}

/// A text that does not end in a line feed has a last line, and that line is
/// not empty.
pub proof fn lemma_last_line_is_not_empty(s: Seq<char>)
    requires
        s.len() > 0,
        s.last() != '\n',
    ensures
        lines_of(s).len() > 0,
        lines_of(s).last().len() > 0,
    decreases s.len(),
{
    lemma_line_end_bounds(s);
    let k = line_end(s) as int;
    if k < s.len() {
        let tail = s.skip(k + 1);
        assert(tail.len() > 0);
        assert(tail.last() == s.last());
        lemma_last_line_is_not_empty(tail);
        assert(lines_of(s).last() == lines_of(tail).last());
    }
}

/// Joining can be read from the front: the first line, a line feed, and the
/// other lines joined.
pub proof fn lemma_joined_front(lines: Seq<Seq<char>>)
    requires
        lines.len() >= 2,
    ensures
        joined(lines) == lines[0] + seq!['\n'] + joined(lines.drop_first()),
    decreases lines.len(),
{
    if lines.len() == 2 {
        assert(joined(lines.drop_last()) == lines[0]);
        assert(joined(lines.drop_first()) == lines[1]);
    } else {
        lemma_joined_front(lines.drop_last());
        assert(lines.drop_last().drop_first() =~= lines.drop_first().drop_last());
        assert(joined(lines) =~= lines[0] + seq!['\n'] + joined(lines.drop_first()));
    }
}

/// Lines without line feeds, joined, make a text of no more lines than
/// were joined, and of as many where the last of them is not empty.
pub proof fn lemma_joined_line_count(lines: Seq<Seq<char>>)
    requires
        no_line_feeds(lines),
    ensures
        lines_of(joined(lines)).len() <= lines.len(),
        lines.len() > 0 && lines.last().len() > 0 ==> lines_of(joined(lines)).len()
            == lines.len(),
    decreases lines.len(),
{
    if lines.len() == 1 {
        let only = lines[0];
        assert(no_line_feed(only));
        if only.len() > 0 {
            lemma_line_end_unique(only, only.len() as int);
        }
    } else if lines.len() >= 2 {
        let rest = lines.drop_first();
        assert(no_line_feed(lines[0]));
        assert forall|i: int| 0 <= i < rest.len() implies no_line_feed(#[trigger] rest[i]) by {
            assert(rest[i] == lines[i + 1]);
        }
        lemma_joined_front(lines);
        lemma_lines_after_first(lines[0], joined(rest));
        lemma_joined_line_count(rest);
        assert(rest.last() == lines.last());
    }
}

/// Splitting undoes joining: lines that hold no line feed, none of which
/// but the last ends in a carriage return, and the last of which is not
/// empty, are the lines of their joined text.
pub proof fn lemma_lines_of_joined(lines: Seq<Seq<char>>)
    requires
        no_line_feeds(lines),
        no_inner_line_ends_in_cr(lines),
        lines.len() > 0 ==> lines.last().len() > 0,
    ensures
        lines_of(joined(lines)) == lines,
    decreases lines.len(),
{
    if lines.len() == 0 {
        assert(lines_of(joined(lines)) =~= lines);
    } else if lines.len() == 1 {
        let only = lines[0];
        assert(no_line_feed(only));
        lemma_line_end_unique(only, only.len() as int);
        assert(lines_of(joined(lines)) =~= lines);
    } else {
        let rest = lines.drop_first();
        assert(no_line_feed(lines[0]));
        assert(without_cr(lines[0]) == lines[0]);
        assert forall|i: int| 0 <= i < rest.len() implies no_line_feed(#[trigger] rest[i]) by {
            assert(rest[i] == lines[i + 1]);
        }
        assert forall|i: int| 0 <= i < rest.len() - 1 implies without_cr(#[trigger] rest[i])
            == rest[i] by {
            assert(rest[i] == lines[i + 1]);
        }
        assert(rest.last() == lines.last());
        lemma_joined_front(lines);
        lemma_lines_after_first(lines[0], joined(rest));
        lemma_lines_of_joined(rest);
        assert(seq![lines[0]] + rest =~= lines);
    }
}

/// The lines of two texts with a line feed between them are the lines of
/// the first followed by the lines of the second, as long as the first is
/// not empty and ends neither in a line feed nor in a carriage return.
pub proof fn lemma_lines_of_appended(head: Seq<char>, tail: Seq<char>)
    requires
        head.len() > 0,
        head.last() != '\n',
        head.last() != '\r',
    ensures
        lines_of(head + seq!['\n'] + tail) == lines_of(head) + lines_of(tail),
    decreases head.len(),
{
    lemma_line_end_bounds(head);
    let k = line_end(head) as int;
    if k >= head.len() {
        assert(no_line_feed(head));
        lemma_lines_after_first(head, tail);
    } else {
        let first = head.take(k);
        let more = head.skip(k + 1);
        assert(more.len() > 0);
        assert(more.last() == head.last());
        assert(no_line_feed(first));
        assert(head + seq!['\n'] + tail =~= first + seq!['\n'] + (more + seq!['\n'] + tail));
        lemma_lines_after_first(first, more + seq!['\n'] + tail);
        lemma_lines_of_appended(more, tail);
        assert(seq![without_cr(first)] + (lines_of(more) + lines_of(tail)) =~= seq![
            without_cr(first),
        ] + lines_of(more) + lines_of(tail));
    }
}

} // verus!
