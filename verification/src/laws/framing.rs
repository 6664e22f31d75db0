//! How messages are framed on a stream of bytes.
use crate::message::{
    be32_value, frame, law_oversized_is_refused, law_read_gives_back_written, message_len,
    read_message, write_message, ReadError,
};
use vstd::prelude::*;
use vstd::string::*;

verus! {

/// What was written is read back, whatever follows it, and exactly the bytes that were
/// written are taken. A body over ten mebibytes is refused with its length.
pub proof fn law_messages_are_read_back(
    body: &[u8],
    written: Vec<u8>,
    stream: &[u8],
    rest: Seq<u8>,
    r: Result<(Vec<u8>, usize), ReadError>,
)
    requires
        call_ensures(write_message, (body,), written),
        stream@ == written@ + rest,
        body@.len() <= u32::MAX,
        call_ensures(read_message, (stream,), r),
    ensures
        written@.len() == body@.len() + 4,
        body@.len() <= 10 * 1024 * 1024 ==> (r matches Ok(t) && t.0@ == body@ && t.1
            == written@.len()),
        body@.len() > 10 * 1024 * 1024 ==> r == Err::<(Vec<u8>, usize), ReadError>(
            ReadError::TooLarge(body@.len() as usize),
        ),
{
    if body@.len() <= 10 * 1024 * 1024 {
        law_read_gives_back_written(body@, rest);
    } else {
        law_oversized_is_refused(body@, rest);
    }
}

/// A message that has not come whole is not read: what lacks at least a byte of it is
/// cut short.
pub proof fn law_cut_messages_are_not_read(
    body: &[u8],
    written: Vec<u8>,
    stream: &[u8],
    n: int,
    r: Result<(Vec<u8>, usize), ReadError>,
)
    requires
        call_ensures(write_message, (body,), written),
        body@.len() <= 10 * 1024 * 1024,
        0 <= n < written@.len(),
        stream@ == written@.take(n),
        call_ensures(read_message, (stream,), r),
    ensures
        r == Err::<(Vec<u8>, usize), ReadError>(ReadError::Truncated),
{
    law_read_gives_back_written(body@, Seq::<u8>::empty());
    if n >= 4 {
        let whole = frame(body@) + Seq::<u8>::empty();
        assert(be32_value(stream@) == be32_value(whole));
    }
}

/// The length of a message stands before it, most significant byte first.
pub proof fn law_length_comes_first(
    body: &[u8],
    written: Vec<u8>,
    header: &[u8],
    r: Result<usize, ReadError>,
)
    requires
        call_ensures(write_message, (body,), written),
        body@.len() <= 10 * 1024 * 1024,
        header@ == written@.take(4),
        call_ensures(message_len, (header,), r),
    ensures
        r == Ok::<usize, ReadError>(body@.len() as usize),
        written@.skip(4) == body@,
        header@[3] == body@.len() % 256,
        header@[2] == (body@.len() / 256) % 256,
        header@[1] == (body@.len() / 65536) % 256,
        header@[0] == (body@.len() / 16777216) % 256,
{
    law_read_gives_back_written(body@, Seq::<u8>::empty());
    let whole = frame(body@) + Seq::<u8>::empty();
    assert(be32_value(header@) == be32_value(whole));
    assert(written@.skip(4) =~= body@);
}

} // verus!
