//! Where a line of the engine's diagnostic output goes.
//!
//! The engine hands over its output line by line and marks the stream of a
//! line with a tag in front of it.

use crate::text::strip_prefix;
use vstd::prelude::*;

verus! {

/// One of the two streams of diagnostic output.
#[derive(Clone, Copy, Debug, PartialEq, Eq, Structural)]
pub enum Stream {
    Stdout,
    Stderr,
}

/// The stream that a line belongs to: the error stream where the line
/// carries that stream's tag, the standard stream otherwise.
pub open spec fn stream_of(line: Seq<char>) -> Stream {
    if "stderr "@.is_prefix_of(line) {
        Stream::Stderr
    } else {
        Stream::Stdout
    }
}

/// The line without its tag, or the whole line where it carries none.
pub open spec fn content_of(line: Seq<char>) -> Seq<char> {
    if "stderr "@.is_prefix_of(line) {
        line.skip("stderr "@.len() as int)
    } else if "stdout "@.is_prefix_of(line) {
        line.skip("stdout "@.len() as int)
    } else {
        line
    }
}

/// What a buffer holds once a line's content has been added to it: the
/// content and a line terminator behind what it held.
pub open spec fn appended(buffer: Seq<char>, line: Seq<char>) -> Seq<char> {
    buffer + content_of(line) + "\n"@
}

/// Tells the stream of a line and the line's content.
pub fn route<'a>(line: &'a str) -> (routed: (Stream, &'a str))
    ensures
        routed.0 == stream_of(line@),
        routed.1@ == content_of(line@),
{
    if let Some(content) = strip_prefix(line, "stderr ") {
        assert(content@ =~= line@.skip("stderr "@.len() as int));
        (Stream::Stderr, content)
    } else if let Some(content) = strip_prefix(line, "stdout ") {
        assert(content@ =~= line@.skip("stdout "@.len() as int));
        (Stream::Stdout, content)
    } else {
        (Stream::Stdout, line)
    }
}

} // verus!
