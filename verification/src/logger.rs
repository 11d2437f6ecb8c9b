//! Log lines.
//!
//! The library prints nothing. A line is composed here and appended to a
//! journal that the caller owns and writes out when it sees fit.

use crate::clock::local_timestamp;
use vstd::prelude::*;
use vstd::string::StringExecFns;

verus! {

pub const RESET: &'static str = "\x1b[0m";

pub const BOLD: &'static str = "\x1b[1m";

pub const RED: &'static str = "\x1b[31m";

pub const YELLOW: &'static str = "\x1b[33m";

pub const BLUE: &'static str = "\x1b[34m";

pub const GREEN: &'static str = "\x1b[32m";

pub const GRAY: &'static str = "\x1b[90m";

/// The coloured tag that opens a line of the given level. A level other than
/// `error`, `warn` and `info` is tagged `[LOG]`.
pub open spec fn level_tag(level: Seq<char>) -> Seq<char> {
    if level == "error"@ {
        RED@ + BOLD@ + "[ERROR]"@ + RESET@
    } else if level == "warn"@ {
        YELLOW@ + BOLD@ + "[WARN]"@ + RESET@
    } else if level == "info"@ {
        BLUE@ + BOLD@ + "[INFO]"@ + RESET@
    } else {
        GREEN@ + BOLD@ + "[LOG]"@ + RESET@
    }
}

/// The message of a line: each part behind one space, in order.
pub open spec fn message(parts: Seq<Seq<char>>) -> Seq<char>
    decreases parts.len(),
{
    if parts.len() == 0 {
        Seq::empty()
    } else {
        message(parts.drop_last()) + " "@ + parts.last()
    }
}

/// A whole line: tag, a space, the timestamp in grey and in square brackets,
/// then the message.
pub open spec fn log_line(level: Seq<char>, timestamp: Seq<char>, parts: Seq<Seq<char>>) -> Seq<
    char,
> {
    level_tag(level) + " "@ + GRAY@ + "["@ + timestamp + "]"@ + RESET@ + message(parts)
}

/// What each of the given strings holds.
pub open spec fn texts(parts: Seq<&str>) -> Seq<Seq<char>> {
    Seq::new(parts.len(), |i: int| parts[i]@)
}

/// `after` is `before` with one more line at its end, which reads `line`.
pub open spec fn appended(before: Seq<String>, after: Seq<String>, line: Seq<char>) -> bool {
    &&& after.len() == before.len() + 1
    &&& after.drop_last() == before
    &&& after.last()@ == line
}

/// `after` is `before` with one more line at its end: that of the given level
/// and parts, under some timestamp.
pub open spec fn logged(
    before: Seq<String>,
    after: Seq<String>,
    level: Seq<char>,
    parts: Seq<Seq<char>>,
) -> bool {
    exists|timestamp: Seq<char>| appended(before, after, #[trigger] log_line(level, timestamp, parts))
}

fn same_text(a: &str, b: &str) -> (r: bool)
    ensures
        r == (a@ == b@),
{
    a.to_owned() == b.to_owned()
}

fn tag_of(level: &str) -> (tag: String)
    ensures
        tag@ == level_tag(level@),
{
    let mut tag = String::new();
    if same_text(level, "error") {
        tag.append(RED);
        tag.append(BOLD);
        tag.append("[ERROR]");
    } else if same_text(level, "warn") {
        tag.append(YELLOW);
        tag.append(BOLD);
        tag.append("[WARN]");
    } else if same_text(level, "info") {
        tag.append(BLUE);
        tag.append(BOLD);
        tag.append("[INFO]");
    } else {
        tag.append(GREEN);
        tag.append(BOLD);
        tag.append("[LOG]");
    }
    tag.append(RESET);
    tag
}

/// Appends to `journal` the line of the given level, timestamp and parts.
pub fn logs_at(journal: &mut Vec<String>, level: &str, timestamp: &str, args: &[&str])
    ensures
        appended(old(journal)@, final(journal)@, log_line(level@, timestamp@, texts(args@))),
{
    let mut line = tag_of(level);
    line.append(" ");
    line.append(GRAY);
    line.append("[");
    line.append(timestamp);
    line.append("]");
    line.append(RESET);
    let ghost head = line@;
    let mut i: usize = 0;
    while i < args.len()
        invariant
            i <= args.len(),
            line@ == head + message(texts(args@).take(i as int)),
        decreases args.len() - i,
    {
        proof {
            let parts = texts(args@);
            assert(parts.take(i + 1).drop_last() == parts.take(i as int));
            assert(parts.take(i + 1).last() == args@[i as int]@);
        }
        line.append(" ");
        line.append(args[i]);
        i += 1;
    }
    proof {
        assert(texts(args@).take(args@.len() as int) == texts(args@));
    }
    let ghost before = journal@;
    journal.push(line);
    assert(journal@.drop_last() == before);
}

/// Appends to `journal` the line of the given level and parts, stamped with
/// the local time at which it was composed.
pub fn logs(journal: &mut Vec<String>, level: &str, args: &[&str])
    ensures
        logged(old(journal)@, final(journal)@, level@, texts(args@)),
{
    let timestamp = local_timestamp();
    logs_at(journal, level, timestamp.as_str(), args);
}

/// Records a failure and yields nothing: appends to `journal` an `error` line
/// made of `context` and `err`, and returns `None`.
pub fn logs_undefined(journal: &mut Vec<String>, context: &str, err: &str) -> (r: Option<()>)
    ensures
        r is None,
        logged(old(journal)@, final(journal)@, "error"@, seq![context@, err@]),
{
    let parts = [context, err];
    assert(texts(parts@) == seq![context@, err@]);
    logs(journal, "error", parts.as_slice());
    None
}

} // verus!
