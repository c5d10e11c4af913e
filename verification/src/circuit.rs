//! What may be submitted to the engine, and the layout in which it is
//! submitted: null-terminated byte strings, a circuit as one per line.

use vstd::prelude::*;
use vstd::string::StringSliceAdditionalSpecFns;

verus! {

/// The byte that ends a string for the engine.
pub const NUL: u8 = 0;

/// The byte that ends a line.
pub const LINE_FEED: u8 = 10;

/// The byte that may precede a line feed as part of the line ending.
pub const CARRIAGE_RETURN: u8 = 13;

/// The bytes hold a null byte, so they cannot be a null-terminated string.
pub open spec fn has_nul(bytes: Seq<u8>) -> bool {
    bytes.contains(NUL)
}

/// The bytes with the terminating null byte behind them.
pub open spec fn terminated(bytes: Seq<u8>) -> Seq<u8> {
    bytes.push(NUL)
}

/// The bytes are a null-terminated string: they end with a null byte and
/// hold no other.
pub open spec fn is_c_string(bytes: Seq<u8>) -> bool {
    bytes.len() > 0 && bytes.last() == NUL && !has_nul(bytes.drop_last())
}

/// The number of bytes before the first line feed, or the number of all
/// bytes where there is no line feed.
pub open spec fn line_end(bytes: Seq<u8>) -> int
    decreases bytes.len(),
{
    if bytes.len() == 0 || bytes[0] == LINE_FEED {
        0
    } else {
        1 + line_end(bytes.skip(1))
    }
}

/// A line without the carriage return that belongs to its line ending.
pub open spec fn without_return(line: Seq<u8>) -> Seq<u8> {
    if line.len() > 0 && line.last() == CARRIAGE_RETURN {
        line.drop_last()
    } else {
        line
    }
}

/// The lines of a text. A line ends with a line feed, or with a carriage
/// return and a line feed; the ending is no part of the line. The last line
/// needs no ending, and is kept as it stands where it has none. A text that
/// ends with a line ending has no empty line after it.
pub open spec fn lines_of(bytes: Seq<u8>) -> Seq<Seq<u8>>
    decreases bytes.len(),
{
    let end = line_end(bytes);
    if bytes.len() == 0 {
        Seq::empty()
    } else if 0 <= end < bytes.len() {
        seq![without_return(bytes.take(end))] + lines_of(bytes.skip(end + 1))
    } else {
        seq![bytes]
    }
}

/// The circuit as the engine takes it: each line as a null-terminated string.
pub open spec fn marshalled(bytes: Seq<u8>) -> Seq<Seq<u8>> {
    lines_of(bytes).map_values(|line: Seq<u8>| terminated(line))
}

/// The first line feed is where a line feed stands with none before it.
pub proof fn lemma_line_end(bytes: Seq<u8>, k: int)
    requires
        0 <= k <= bytes.len(),
        forall|j: int| 0 <= j < k ==> bytes[j] != LINE_FEED,
        k < bytes.len() ==> bytes[k] == LINE_FEED,
    ensures
        line_end(bytes) == k,
    decreases k,
{
    if k > 0 {
        let rest = bytes.skip(1);
        assert forall|j: int| 0 <= j < k - 1 implies rest[j] != LINE_FEED by {
            assert(rest[j] == bytes[j + 1]);
        }
        lemma_line_end(rest, k - 1);
    }
}

/// The lines of a text without null bytes hold none either, so each is a
/// null-terminated string once it is terminated.
pub proof fn lemma_lines_are_c_strings(bytes: Seq<u8>)
    requires
        !has_nul(bytes),
    ensures
        forall|i: int|
            0 <= i < marshalled(bytes).len() ==> is_c_string(#[trigger] marshalled(bytes)[i]),
    decreases bytes.len(),
{
    let end = line_end(bytes);
    assert forall|i: int| 0 <= i < marshalled(bytes).len() implies is_c_string(
        #[trigger] marshalled(bytes)[i],
    ) by {
        let line = lines_of(bytes)[i];
        assert(terminated(line).drop_last() == line);
        if 0 <= end < bytes.len() {
            let rest = bytes.skip(end + 1);
            if i == 0 {
                let whole = bytes.take(end);
                assert forall|j: int| 0 <= j < line.len() implies line[j] != NUL by {
                    assert(line[j] == whole[j]);
                    assert(whole[j] == bytes[j]);
                }
            } else {
                assert forall|j: int| 0 <= j < rest.len() implies rest[j] != NUL by {
                    assert(rest[j] == bytes[end + 1 + j]);
                }
                lemma_lines_are_c_strings(rest);
                assert(line == lines_of(rest)[i - 1]);
                assert(terminated(line) == marshalled(rest)[i - 1]);
            }
        }
    }
}

/// Tells whether a text holds a null byte.
pub fn contains_nul(text: &str) -> (found: bool)
    ensures
        found == has_nul(text.spec_bytes()),
{
    let bytes = text.as_bytes();
    let mut i: usize = 0;
    while i < bytes.len()
        invariant
            bytes@ == text.spec_bytes(),
            i <= bytes@.len(),
            forall|j: int| 0 <= j < i ==> bytes@[j] != NUL,
        decreases bytes@.len() - i,
    {
        if bytes[i] == NUL {
            assert(bytes@[i as int] == NUL);
            return true;
        }
        i += 1;
    }
    false
}

/// Lays a command out as a null-terminated string.
pub fn command_line(command: &str) -> (line: Vec<u8>)
    requires
        !has_nul(command.spec_bytes()),
    ensures
        line@ == terminated(command.spec_bytes()),
        is_c_string(line@),
{
    let bytes = command.as_bytes();
    let mut line: Vec<u8> = Vec::new();
    let mut i: usize = 0;
    while i < bytes.len()
        invariant
            bytes@ == command.spec_bytes(),
            i <= bytes@.len(),
            line@ == bytes@.take(i as int),
        decreases bytes@.len() - i,
    {
        line.push(bytes[i]);
        assert(bytes@.take(i + 1) == bytes@.take(i as int).push(bytes@[i as int]));
        i += 1;
    }
    assert(bytes@.take(i as int) == bytes@);
    line.push(NUL);
    assert(line@.drop_last() == bytes@);
    line
}

/// Lays a circuit out as the engine takes it: its lines, each as a
/// null-terminated string.
pub fn circuit_lines(circuit: &str) -> (lines: Vec<Vec<u8>>)
    requires
        !has_nul(circuit.spec_bytes()),
    ensures
        lines@.len() == marshalled(circuit.spec_bytes()).len(),
        forall|i: int|
            0 <= i < lines@.len() ==> (#[trigger] lines@[i])@ == marshalled(
                circuit.spec_bytes(),
            )[i] && is_c_string(lines@[i]@),
{
    let bytes = circuit.as_bytes();
    proof {
        lemma_lines_are_c_strings(bytes@);
    }
    let mut lines: Vec<Vec<u8>> = Vec::new();
    let mut current: Vec<u8> = Vec::new();
    let ghost mut done: Seq<Seq<u8>> = Seq::empty();
    let ghost mut start: int = 0;
    let mut i: usize = 0;
    assert(bytes@.skip(0) == bytes@);
    assert(Seq::<Seq<u8>>::empty() + lines_of(bytes@) == lines_of(bytes@));
    while i < bytes.len()
        invariant
            bytes@ == circuit.spec_bytes(),
            0 <= start <= i <= bytes@.len(),
            current@ == bytes@.subrange(start, i as int),
            forall|j: int| start <= j < i ==> bytes@[j] != LINE_FEED,
            lines_of(bytes@) == done + lines_of(bytes@.skip(start)),
            lines@.len() == done.len(),
            forall|k: int| 0 <= k < done.len() ==> (#[trigger] lines@[k])@ == terminated(done[k]),
        decreases bytes@.len() - i,
    {
        let byte = bytes[i];
        if byte == LINE_FEED {
            proof {
                let rest = bytes@.skip(start);
                assert forall|j: int| 0 <= j < i - start implies rest[j] != LINE_FEED by {
                    assert(rest[j] == bytes@[start + j]);
                }
                lemma_line_end(rest, i - start);
                assert(rest.take(i - start) == current@);
                assert(rest.skip(i - start + 1) == bytes@.skip(i + 1));
                done = done.push(without_return(current@));
                assert(lines_of(bytes@) == done + lines_of(bytes@.skip(i + 1)));
                start = i + 1;
            }
            let n = current.len();
            if n > 0 && current[n - 1] == CARRIAGE_RETURN {
                current.pop();
            }
            current.push(NUL);
            lines.push(current);
            current = Vec::new();
        } else {
            current.push(byte);
            assert(bytes@.subrange(start, i + 1) == bytes@.subrange(start, i as int).push(byte));
        }
        i += 1;
        assert(current@ == bytes@.subrange(start, i as int));
    }
    if current.len() > 0 {
        proof {
            let rest = bytes@.skip(start);
            assert(rest == current@);
            assert forall|j: int| 0 <= j < rest.len() implies rest[j] != LINE_FEED by {
                assert(rest[j] == bytes@[start + j]);
            }
            lemma_line_end(rest, rest.len() as int);
            done = done.push(current@);
        }
        current.push(NUL);
        lines.push(current);
    } else {
        assert(bytes@.skip(start).len() == 0);
        assert(done + Seq::<Seq<u8>>::empty() == done);
    }
    lines
}

} // verus!
