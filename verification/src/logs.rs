//! From a streamed log payload to a bounded scrollback buffer.
//!
//! The payload is framed as server-sent events: lines that begin with
//! `event:`, `id:` or `retry:` carry framing only and are dropped, a line that
//! begins with `data:` carries a message after that prefix, and any other
//! line is a message as it stands. The messages of a payload are joined with
//! line feeds into a chunk, and chunks are appended to a buffer that keeps
//! its newest lines only.

use crate::text::{
    append_chars, from_chars, has_prefix, join_lines, joined, lemma_joined_line_count,
    lemma_last_line_is_not_empty, lemma_lines_hold_no_line_feed, lemma_lines_keep_no_cr,
    lemma_lines_of_appended, lemma_lines_of_joined, lines_of, lines_view, no_carriage_return,
    no_line_feed, split_lines, suffix, to_chars, trim_start_from, trimmed_start,
    without_cr,
};
use vstd::prelude::*;

verus! {

/// The most lines that a chunk or the scrollback buffer keeps.
pub const MAX_LOG_LINES: usize = 1000;

/// Whether `line` carries framing only: an event name, an id or a retry
/// interval.
pub open spec fn is_sse_meta(line: Seq<char>) -> bool {
    ||| "event:"@.is_prefix_of(line)
    ||| "id:"@.is_prefix_of(line)
    ||| "retry:"@.is_prefix_of(line)
}

/// What `line` says, framing apart: behind `data:`, the rest without its
/// leading white space; without that prefix, the line itself.
pub open spec fn sse_content(line: Seq<char>) -> Seq<char> {
    if "data:"@.is_prefix_of(line) {
        trimmed_start(line.skip("data:"@.len() as int))
    } else {
        line
    }
}

/// The message that `line` carries, if it carries one: none for a framing
/// line, none where nothing is left of the line.
pub open spec fn sse_message(line: Seq<char>) -> Option<Seq<char>> {
    if is_sse_meta(line) || sse_content(line).len() == 0 {
        None
    } else {
        Some(sse_content(line))
    }
}

/// The messages that `lines` carry, in the order of the lines.
pub open spec fn sse_messages(lines: Seq<Seq<char>>) -> Seq<Seq<char>>
    decreases lines.len(),
{
    if lines.len() == 0 {
        Seq::empty()
    } else {
        let before = sse_messages(lines.drop_last());
        match sse_message(lines.last()) {
            Some(m) => before.push(m),
            None => before,
        }
    }
}

/// The chunk that a payload gives: its messages, one per line.
pub open spec fn parsed_sse(raw: Seq<char>) -> Seq<char> {
    joined(sse_messages(lines_of(raw)))
}

/// `text` cut down to its last `max` lines: `text` itself where it has no
/// more than `max` lines, else its last `max` lines joined by line feeds.
pub open spec fn last_lines(text: Seq<char>, max: nat) -> Seq<char> {
    let lines = lines_of(text);
    if lines.len() <= max {
        text
    } else {
        joined(lines.skip(lines.len() - max))
    }
}

/// The buffer after a payload has come in. The payload's chunk is cut down
/// to the line limit first. It becomes the buffer where there was none;
/// else it is appended behind a line feed and the whole is cut down again.
pub open spec fn merged_logs(existing: Option<Seq<char>>, raw: Seq<char>) -> Seq<char> {
    let chunk = last_lines(parsed_sse(raw), MAX_LOG_LINES as nat);
    match existing {
        Some(buffer) => last_lines(buffer + seq!['\n'] + chunk, MAX_LOG_LINES as nat),
        None => chunk,
    }
}

/// The buffer after `line` has been appended as it stands: behind a line
/// feed where there was a buffer, alone where there was none.
pub open spec fn appended_line(existing: Option<Seq<char>>, line: Seq<char>) -> Seq<char> {
    match existing {
        Some(buffer) => buffer + seq!['\n'] + line,
        None => line,
    }
}

/// The four prefixes that the framing knows.
struct Prefixes {
    event: Vec<char>,
    id: Vec<char>,
    retry: Vec<char>,
    data: Vec<char>,
}

impl Prefixes {
    spec fn wf(&self) -> bool {
        &&& self.event@ == "event:"@
        &&& self.id@ == "id:"@
        &&& self.retry@ == "retry:"@
        &&& self.data@ == "data:"@
    }

    fn new() -> (p: Prefixes)
        ensures
            p.wf(),
    {
        Prefixes {
            event: to_chars("event:"),
            id: to_chars("id:"),
            retry: to_chars("retry:"),
            data: to_chars("data:"),
        }
    }
}

/// The message that `line` carries, if any.
fn message_of(line: &Vec<char>, prefixes: &Prefixes) -> (message: Option<Vec<char>>)
    requires
        prefixes.wf(),
    ensures
        match sse_message(line@) {
            Some(m) => message is Some && message->0@ == m,
            None => message is None,
        },
{
    if has_prefix(line, &prefixes.event) || has_prefix(line, &prefixes.id) || has_prefix(
        line,
        &prefixes.retry,
    ) {
        return None;
    }
    let content = if has_prefix(line, &prefixes.data) {
        trim_start_from(line, prefixes.data.len())
    } else {
        suffix(line, 0)
    };
    assert(line@.skip(0) =~= line@);
    if content.len() == 0 {
        None
    } else {
        Some(content)
    }
}

/// The chunk of a payload, on characters.
fn parse_chars(raw: &Vec<char>) -> (parsed: Vec<char>)
    ensures
        parsed@ == parsed_sse(raw@),
{
    let prefixes = Prefixes::new();
    let lines = split_lines(raw);
    let mut messages: Vec<Vec<char>> = Vec::new();
    let mut i: usize = 0;
    while i < lines.len()
        invariant
            i <= lines.len(),
            prefixes.wf(),
            lines_view(messages@) == sse_messages(lines_view(lines@).take(i as int)),
        decreases lines.len() - i,
    {
        let ghost before = lines_view(messages@);
        proof {
            let upto = lines_view(lines@).take(i + 1);
            assert(upto.drop_last() =~= lines_view(lines@).take(i as int));
            assert(upto.last() == lines@[i as int]@);
        }
        match message_of(&lines[i], &prefixes) {
            Some(m) => {
                messages.push(m);
                assert(lines_view(messages@) =~= before.push(m@));
            },
            None => {},
        }
        i += 1;
    }
    assert(lines_view(lines@).take(lines.len() as int) =~= lines_view(lines@));
    let parsed = join_lines(&messages, 0);
    assert(lines_view(messages@).skip(0) =~= lines_view(messages@));
    parsed
}

/// `text` cut down to its last `max_lines` lines, on characters.
fn limit_chars(text: Vec<char>, max_lines: usize) -> (kept: Vec<char>)
    ensures
        kept@ == last_lines(text@, max_lines as nat),
{
    let lines = split_lines(&text);
    if lines.len() <= max_lines {
        text
    } else {
        join_lines(&lines, lines.len() - max_lines)
    }
}

/// Extracts the messages of a server-sent-events payload and joins them with
/// line feeds. Framing lines and lines that carry nothing are left out.
pub fn parse_sse_logs(sse_data: &str) -> (parsed: String)
    ensures
        parsed@ == parsed_sse(sse_data@),
{
    let raw = to_chars(sse_data);
    let parsed = parse_chars(&raw);
    from_chars(&parsed)
}

/// Cuts `logs` down to its last `max_lines` lines. Text of no more than
/// `max_lines` lines comes back unchanged, line endings included; longer
/// text comes back as its last `max_lines` lines joined by line feeds.
pub fn limit_log_lines(logs: &str, max_lines: usize) -> (kept: String)
    ensures
        kept@ == last_lines(logs@, max_lines as nat),
{
    let text = to_chars(logs);
    let kept = limit_chars(text, max_lines);
    from_chars(&kept)
}

/// The view of an optional string.
pub open spec fn text_of(s: Option<String>) -> Option<Seq<char>> {
    match s {
        Some(t) => Some(t@),
        None => None,
    }
}

/// Takes a payload into the scrollback buffer: parses it, cuts the chunk
/// down to the line limit, appends it to `existing` behind a line feed and
/// cuts the whole down again. Without a buffer the chunk is the new buffer.
pub fn merge_logs(existing: &Option<String>, sse_data: &str) -> (merged: String)
    ensures
        merged@ == merged_logs(text_of(*existing), sse_data@),
{
    let raw = to_chars(sse_data);
    let chunk = limit_chars(parse_chars(&raw), MAX_LOG_LINES);
    match existing {
        Some(buffer) => {
            let mut whole = to_chars(buffer.as_str());
            whole.push('\n');
            append_chars(&mut whole, &chunk);
            assert(whole@ =~= buffer@ + seq!['\n'] + chunk@);
            let kept = limit_chars(whole, MAX_LOG_LINES);
            from_chars(&kept)
        },
        None => from_chars(&chunk),
    }
}

/// Appends `line` to the scrollback buffer as it stands, behind a line feed;
/// without a buffer `line` is the new buffer. Nothing is cut off.
pub fn append_log_line(existing: &Option<String>, line: &str) -> (appended: String)
    ensures
        appended@ == appended_line(text_of(*existing), line@),
{
    match existing {
        Some(buffer) => {
            let mut whole = to_chars(buffer.as_str());
            whole.push('\n');
            append_chars(&mut whole, &to_chars(line));
            assert(whole@ =~= buffer@ + seq!['\n'] + line@);
            from_chars(&whole)
        },
        None => line.to_owned(),
    }
}

/// Text cut down to its last `max` lines has no more than `max` lines.
pub proof fn lemma_last_lines_bounded(text: Seq<char>, max: nat)
    ensures
        lines_of(last_lines(text, max)).len() <= max,
{
    let lines = lines_of(text);
    if lines.len() > max {
        let kept = lines.skip(lines.len() - max);
        lemma_lines_hold_no_line_feed(text);
        assert forall|i: int| 0 <= i < kept.len() implies no_line_feed(#[trigger] kept[i]) by {
            assert(kept[i] == lines[i + lines.len() - max]);
        }
        lemma_joined_line_count(kept);
    }
}

/// The scrollback buffer never has more lines than the limit after a
/// payload has come in, however long the payload and the buffer were.
pub proof fn lemma_merged_logs_bounded(existing: Option<Seq<char>>, raw: Seq<char>)
    ensures
        lines_of(merged_logs(existing, raw)).len() <= MAX_LOG_LINES,
{
    let chunk = last_lines(parsed_sse(raw), MAX_LOG_LINES as nat);
    lemma_last_lines_bounded(parsed_sse(raw), MAX_LOG_LINES as nat);
    match existing {
        Some(buffer) => {
            lemma_last_lines_bounded(buffer + seq!['\n'] + chunk, MAX_LOG_LINES as nat);
        },
        None => {},
    }
}

/// The newest `max` of `lines`: all of them where they are no more.
pub open spec fn newest(lines: Seq<Seq<char>>, max: nat) -> Seq<Seq<char>> {
    if lines.len() <= max {
        lines
    } else {
        lines.skip(lines.len() - max)
    }
}

/// Appending a chunk to a buffer and cutting the whole down to `max` lines
/// keeps the newest lines and evicts the oldest first: the lines of the
/// result are the last `max` of the buffer's lines followed by the chunk's.
/// This holds for a buffer that is not empty and does not end in a line
/// feed, a chunk that does not end in one, and texts without carriage
/// returns.
pub proof fn lemma_merge_keeps_newest_lines(buffer: Seq<char>, chunk: Seq<char>, max: nat)
    requires
        buffer.len() > 0,
        buffer.last() != '\n',
        chunk.len() > 0 ==> chunk.last() != '\n',
        no_carriage_return(buffer),
        no_carriage_return(chunk),
    ensures
        lines_of(last_lines(buffer + seq!['\n'] + chunk, max)) == newest(
            lines_of(buffer) + lines_of(chunk),
            max,
        ),
{
    let all = lines_of(buffer) + lines_of(chunk);
    lemma_lines_of_appended(buffer, chunk);
    if all.len() > max {
        let kept = all.skip(all.len() - max);
        lemma_lines_hold_no_line_feed(buffer);
        lemma_lines_hold_no_line_feed(chunk);
        lemma_lines_keep_no_cr(buffer);
        lemma_lines_keep_no_cr(chunk);
        lemma_last_line_is_not_empty(buffer);
        if chunk.len() > 0 {
            lemma_last_line_is_not_empty(chunk);
        }
        assert forall|i: int| 0 <= i < all.len() implies no_line_feed(#[trigger] all[i])
            && without_cr(all[i]) == all[i] by {
            if i < lines_of(buffer).len() {
                assert(all[i] == lines_of(buffer)[i]);
            } else {
                assert(all[i] == lines_of(chunk)[i - lines_of(buffer).len()]);
            }
        }
        assert(all.last().len() > 0) by {
            if lines_of(chunk).len() > 0 {
                assert(all.last() == lines_of(chunk).last());
            } else {
                assert(all.last() == lines_of(buffer).last());
            }
        }
        assert forall|i: int| 0 <= i < kept.len() implies no_line_feed(#[trigger] kept[i]) by {
            assert(kept[i] == all[i + all.len() - max]);
        }
        assert forall|i: int| 0 <= i < kept.len() - 1 implies without_cr(#[trigger] kept[i])
            == kept[i] by {
            assert(kept[i] == all[i + all.len() - max]);
        }
        if kept.len() > 0 {
            assert(kept.last() == all.last());
        }
        lemma_lines_of_joined(kept);
    }
}

} // verus!
