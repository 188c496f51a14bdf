//! The standard library calls that the reader is built on, with what is
//! taken on trust about each of them.

use crate::text::is_chunk;
use std::io::BufRead;
use vstd::prelude::*;
use vstd::utf8::encode_utf8;

verus! {

/// The error type of `std::io`. Nothing is known of a value of it: the reader
/// only carries it from the byte source to the caller.
#[verifier::external_type_specification]
#[verifier::external_body]
pub struct ExIoError(std::io::Error);

/// `String::clear` leaves the string without characters.
pub assume_specification[ String::clear ](text: &mut String)
    ensures
        final(text)@ == Seq::<char>::empty(),
;

/// `String::pop` removes the last character and returns it, or returns `None`
/// and changes nothing when there is none.
pub assume_specification[ String::pop ](text: &mut String) -> (last: Option<char>)
    ensures
        old(text)@.len() == 0 ==> last is None && final(text)@ == old(text)@,
        old(text)@.len() > 0 ==> last == Some(old(text)@.last()) && final(text)@ == old(
            text,
        )@.drop_last(),
;

/// `str::ends_with`, asked of one character: whether `text` has a last
/// character and it is `c`.
#[verifier::external_body]
pub(crate) fn ends_with_char(text: &str, c: char) -> (found: bool)
    ensures
        found == (text@.len() > 0 && text@.last() == c),
{
    text.ends_with(c)
}

/// `std::io::BufRead::read_line`, as its documentation describes it. On
/// success the old content of `buffer` is kept and one chunk is appended to
/// it: the bytes up to and including the next newline, or up to the end of
/// the stream, so that a newline can only be the chunk's last character; the
/// count is the chunk's length in bytes. Of a failed read nothing is claimed,
/// and nothing of the stream after either.
///
/// The method is a provided one, and the claim is made of it and of every
/// source whose own version keeps to that documentation.
#[verifier::external_body]
pub(crate) fn read_line<B: BufRead>(stream: &mut B, buffer: &mut String) -> (outcome: Result<
    usize,
    std::io::Error,
>)
    ensures
        outcome is Ok ==> old(buffer)@.is_prefix_of(final(buffer)@),
        outcome is Ok ==> is_chunk(final(buffer)@.skip(old(buffer)@.len() as int)),
        outcome matches Ok(count) ==> count == encode_utf8(
            final(buffer)@.skip(old(buffer)@.len() as int),
        ).len(),
{
    stream.read_line(buffer)
}

} // verus!
