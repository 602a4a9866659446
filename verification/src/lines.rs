//! Captured output as text, and text as lines.

use vstd::prelude::*;
use vstd::utf8::{decode_utf8, valid_utf8};
use crate::text::{push_char, words};

verus! {

/// `FromUtf8Error` of the standard library, of which nothing is read but
/// its description.
#[verifier::external_type_specification]
#[verifier::external_body]
pub struct ExFromUtf8Error(std::string::FromUtf8Error);

/// `String::from_utf8` of the standard library: the text that the bytes
/// encode, and an error exactly when they are not valid UTF-8.
#[verifier::external_body]
fn string_from_utf8(bytes: Vec<u8>) -> (out: Result<String, std::string::FromUtf8Error>)
    ensures
        out is Ok <==> valid_utf8(bytes@),
        out matches Ok(text) ==> text@ == decode_utf8(bytes@),
{
    String::from_utf8(bytes)
}

/// The text that `bytes` encode, or the standard library's description of
/// why they encode none.
pub fn decode(bytes: &Vec<u8>) -> (out: Result<String, String>)
    ensures
        out is Ok <==> valid_utf8(bytes@),
        out matches Ok(text) ==> text@ == decode_utf8(bytes@),
{
    match string_from_utf8(bytes.clone()) {
        Ok(text) => Ok(text),
        Err(e) => Err(e.to_string()),
    }
}

/// The position of the first line feed of `text` at or after `from`, or
/// the length of `text` if there is none.
pub open spec fn line_end(text: Seq<char>, from: int) -> int
    decreases text.len() - from,
{
    if from < 0 || from >= text.len() || text[from] == '\n' {
        from
    } else {
        line_end(text, from + 1)
    }
}

/// `line` without the carriage return at its end, if it has one.
pub open spec fn without_cr(line: Seq<char>) -> Seq<char> {
    if line.len() > 0 && line.last() == '\r' {
        line.drop_last()
    } else {
        line
    }
}

/// The lines of `text` from position `start` on.  A line ends at a line
/// feed, or at a carriage return directly followed by one; neither belongs
/// to the line.  The last line needs no line ending, and an ending at the
/// very end of the text starts no further line.
pub open spec fn lines_from(text: Seq<char>, start: int) -> Seq<Seq<char>>
    decreases text.len() - start,
{
    if start < 0 || start >= text.len() {
        Seq::empty()
    } else {
        let end = line_end(text, start);
        let raw = text.subrange(start, end);
        if end < text.len() {
            proof {
                lemma_line_end_bounds(text, start);
            }
            seq![without_cr(raw)] + lines_from(text, end + 1)
        } else {
            seq![raw]
        }
    }
}

/// The lines of `text`.
pub open spec fn lines_of(text: Seq<char>) -> Seq<Seq<char>> {
    lines_from(text, 0)
}

/// A line goes on to the same end from each of its positions.
pub proof fn lemma_line_end_within(text: Seq<char>, start: int, at: int)
    requires
        0 <= start <= at <= text.len(),
        forall|k: int| start <= k < at ==> text[k] != '\n',
    ensures
        line_end(text, start) == line_end(text, at),
        at <= line_end(text, at) <= text.len(),
    decreases text.len() - start,
{
    if start < at {
        lemma_line_end_within(text, start + 1, at);
    } else {
        lemma_line_end_bounds(text, at);
    }
}

/// The end of a line lies between its start and the end of the text.
pub proof fn lemma_line_end_bounds(text: Seq<char>, from: int)
    requires
        0 <= from <= text.len(),
    ensures
        from <= line_end(text, from) <= text.len(),
        line_end(text, from) < text.len() ==> text[line_end(text, from)] == '\n',
    decreases text.len() - from,
{
    if from < text.len() && text[from] != '\n' {
        lemma_line_end_bounds(text, from + 1);
    }
}

/// Splits `text` into its lines.
pub fn split_lines(text: &str) -> (out: Vec<String>)
    ensures
        words(out@) == lines_of(text@),
{
    let mut out: Vec<String> = Vec::new();
    let mut current = String::new();
    let mut pending_cr = false;
    let ghost mut start: int = 0;
    for c in it: text.chars()
        invariant
            it.seq() == text@,
            0 <= start <= it.index() <= text@.len(),
            forall|k: int| start <= k < it.index() ==> text@[k] != '\n',
            text@.subrange(start, it.index() as int) == current@ + (if pending_cr {
                seq!['\r']
            } else {
                Seq::<char>::empty()
            }),
            !pending_cr && start < it.index() ==> text@[it.index() - 1] != '\r',
            words(out@) + lines_from(text@, start) == lines_of(text@),
    {
        let ghost at: int = it.index() as int;
        let ghost raw = text@.subrange(start, at);
        assert(text@[at] == c);
        assert(text@.subrange(start, at + 1) == raw.push(c));
        if c == '\n' {
            proof {
                lemma_line_end_within(text@, start, at);
                assert(line_end(text@, at) == at);
                assert(without_cr(raw) == current@) by {
                    if pending_cr {
                        assert(raw.drop_last() == current@);
                    } else if start < at {
                        assert(raw.last() == text@[at - 1]);
                    }
                }
                assert(lines_from(text@, start) == seq![current@] + lines_from(text@, at + 1));
            }
            let ghost before = words(out@);
            out.push(current);
            proof {
                assert(words(out@) == before + seq![current@]);
                start = at + 1;
                assert(text@.subrange(start, at + 1) == Seq::<char>::empty());
            }
            current = String::new();
            pending_cr = false;
        } else {
            if pending_cr {
                push_char(&mut current, '\r');
            }
            if c == '\r' {
                pending_cr = true;
            } else {
                push_char(&mut current, c);
                pending_cr = false;
            }
        }
    }
    let ghost n: int = text@.len() as int;
    if pending_cr {
        push_char(&mut current, '\r');
    }
    proof {
        assert(current@ == text@.subrange(start, n));
        lemma_line_end_within(text@, start, n);
        assert(line_end(text@, n) == n);
    }
    if !current.as_str().is_empty() {
        let ghost before = words(out@);
        proof {
            assert(start < n);
            assert(lines_from(text@, start) == seq![current@]);
        }
        out.push(current);
        proof {
            assert(words(out@) == before + seq![current@]);
        }
    } else {
        proof {
            assert(start >= n);
            assert(lines_from(text@, start) == Seq::<Seq<char>>::empty());
        }
    }
    out
}

} // verus!
