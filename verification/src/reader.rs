//! The reader itself.

use crate::source::{ends_with_char, read_line};
use crate::text::{terminator_free, yielded, TERMINATOR};
use std::io::BufRead;
use vstd::prelude::*;

verus! {

/// A cursor over the lines of a buffered byte source.
pub struct Lines<B> {
    stream: B,
    buffer: String,
}

/// Decides what a pull hands out once the read has returned `outcome` and
/// left its bytes in `buffer`.
///
/// A failure is passed on as it is and the buffer is not touched. After a
/// success an empty buffer means that the stream has ended; otherwise one
/// trailing terminator is taken off and the buffer is the line.
pub fn settle<'a>(buffer: &'a mut String, outcome: Result<usize, std::io::Error>) -> (pulled:
    Option<Result<&'a str, std::io::Error>>)
    ensures
        match outcome {
            Err(cause) => pulled == Some(Err::<&str, std::io::Error>(cause)) && final(buffer)@
                == old(buffer)@,
            Ok(_) => match yielded(old(buffer)@) {
                None => pulled is None && final(buffer)@ == old(buffer)@,
                Some(text) => final(buffer)@ == text && match pulled {
                    Some(Ok(line)) => line@ == text,
                    _ => false,
                },
            },
        },
{
    match outcome {
        Ok(_) => {
            if buffer.as_str().is_empty() {
                None
            } else {
                if ends_with_char(buffer.as_str(), TERMINATOR) {
                    buffer.pop();
                }
                Some(Ok(buffer.as_str()))
            }
        },
        Err(cause) => Some(Err(cause)),
    }
}

impl<B> View for Lines<B> {
    type V = Seq<char>;

    /// The text that the buffer holds.
    closed spec fn view(&self) -> Seq<char> {
        self.buffer@
    }
}

impl<B> Lines<B> {
    /// The byte source that the reader owns.
    pub closed spec fn stream(&self) -> B {
        self.stream
    }
}

impl<B: BufRead> Lines<B> {
    /// Wraps `stream`; nothing is read until the first pull.
    pub fn from(stream: B) -> (lines: Lines<B>)
        ensures
            lines@ == Seq::<char>::empty(),
            lines.stream() == stream,
    {
        Lines { stream: stream, buffer: String::new() }
    }

    /// Pulls the next line into the buffer, in place of what it held.
    ///
    /// `None` is the end of the stream; `Some(Err(..))` is a failure of the
    /// byte source, passed on as it came, after which the buffer holds
    /// nothing to rely on. A line is handed out as a view of the buffer,
    /// without its terminator, and stands until the next pull.
    pub fn next(&mut self) -> (pulled: Option<Result<&str, std::io::Error>>)
        ensures
            pulled is None ==> final(self)@.len() == 0,
            pulled matches Some(Ok(line)) ==> line@ == final(self)@ && terminator_free(line@),
    {
        self.buffer.clear();
        let outcome = read_line(&mut self.stream, &mut self.buffer);
        assert(self.buffer@.skip(0) == self.buffer@);
        settle(&mut self.buffer, outcome)
    }
}

} // verus!
