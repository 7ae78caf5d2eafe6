//! The log relay's line model. Each complete line read from one of the
//! worker's output streams becomes one tagged record; within one stream the
//! records keep the order in which the lines arrived. No order is promised
//! across the two streams: the caller runs one independent reader per
//! stream.

use vstd::prelude::*;

verus! {

/// Which worker output stream a log record came from.
#[derive(Debug, Clone, Copy, PartialEq, Eq, Structural)]
pub enum StreamTag {
    Stdout,
    Stderr,
}

/// The tag prefix put before every relayed line.
pub open spec fn stream_prefix(tag: StreamTag) -> Seq<char> {
    match tag {
        StreamTag::Stdout => "[STDOUT] "@,
        StreamTag::Stderr => "[STDERR] "@,
    }
}

/// One relayed record: the stream's tag prefix followed by the line.
pub open spec fn tagged_line(tag: StreamTag, line: Seq<char>) -> Seq<char> {
    stream_prefix(tag) + line
}

/// The event channel on which relayed records are published.
pub fn log_channel() -> (r: &'static str)
    ensures
        r@ == "backend-log"@,
{
    "backend-log"
}

/// Formats one line read from a stream as the record published to
/// subscribers.
pub fn format_log_line(tag: StreamTag, line: &str) -> (r: String)
    ensures
        r@ == tagged_line(tag, line@),
{
    match tag {
        StreamTag::Stdout => String::from_str("[STDOUT] ").concat(line),
        StreamTag::Stderr => String::from_str("[STDERR] ").concat(line),
    }
}

/// Formats every line of one stream, keeping arrival order: the record at
/// each position is the tagged form of the line at the same position.
pub fn relay_stream_lines(tag: StreamTag, lines: &Vec<String>) -> (r: Vec<String>)
    ensures
        r@.len() == lines@.len(),
        forall|i: int|
            0 <= i < lines@.len() ==> #[trigger] r@[i]@ == tagged_line(tag, lines@[i]@),
{
    let mut out: Vec<String> = Vec::new();
    let mut idx: usize = 0;
    while idx < lines.len()
        invariant
            idx <= lines@.len(),
            out@.len() == idx,
            forall|i: int| 0 <= i < idx ==> #[trigger] out@[i]@ == tagged_line(tag, lines@[i]@),
        decreases lines@.len() - idx,
    {
        let record = format_log_line(tag, lines[idx].as_str());
        out.push(record);
        idx = idx + 1;
    }
    out
}

} // verus!
