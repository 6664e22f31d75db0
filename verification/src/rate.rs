//! Limits on bandwidth: how they are written, and how much may be read or written
//! at once.
use crate::codec::{to_uppercase, uppercase_of};
use crate::streams::least;
use crate::text::{chars_of, ends_with, spec_trim, string_of, trim};
use vstd::prelude::*;
use vstd::string::*;

verus! {

/// A read or write moves at least this many bytes, where there are as many.
pub const DEFAULT_MIN_BYTES: usize = 4096;

/// A limit as it is written: a number and how many bytes its unit stands for.
#[derive(Debug)]
pub struct BandwidthLimit {
    pub number: String,
    pub unit: u64,
}

/// The text without its last `n` characters and without white space at either end.
pub open spec fn without_suffix(t: Seq<char>, n: nat) -> Seq<char> {
    spec_trim(t.take(t.len() - n))
}

/// The number of a limit in capital letters, and how many bytes its unit stands for.
pub open spec fn split_limit(t: Seq<char>) -> (Seq<char>, u64) {
    if "GB"@.is_suffix_of(t) {
        (without_suffix(t, 2), 1073741824)
    } else if "MB"@.is_suffix_of(t) {
        (without_suffix(t, 2), 1048576)
    } else if "KB"@.is_suffix_of(t) {
        (without_suffix(t, 2), 1024)
    } else if "B"@.is_suffix_of(t) {
        (without_suffix(t, 1), 1)
    } else {
        (t, 1)
    }
}

fn cut(t: &str, n: usize) -> (r: String)
    requires
        n <= t@.len(),
    ensures
        r@ == without_suffix(t@, n as nat),
{
    let chars: Vec<char> = chars_of(t);
    let head: String = string_of(&chars, 0, chars.len() - n);
    assert(head@ =~= t@.take(t@.len() - n));
    trim(head.as_str())
}

/// Reads a limit that is written in capital letters.
pub fn split_bandwidth_limit(t: &str) -> (r: BandwidthLimit)
    ensures
        (r.number@, r.unit) == split_limit(t@),
{
    proof {
        reveal_strlit("GB");
        reveal_strlit("MB");
        reveal_strlit("KB");
        reveal_strlit("B");
    }
    if ends_with(t, "GB") {
        BandwidthLimit { number: cut(t, 2), unit: 1073741824 }
    } else if ends_with(t, "MB") {
        BandwidthLimit { number: cut(t, 2), unit: 1048576 }
    } else if ends_with(t, "KB") {
        BandwidthLimit { number: cut(t, 2), unit: 1024 }
    } else if ends_with(t, "B") {
        BandwidthLimit { number: cut(t, 1), unit: 1 }
    } else {
        BandwidthLimit { number: t.to_string(), unit: 1 }
    }
}

/// Reads a limit such as `10MB`; nothing where the text is blank.
pub fn parse_bandwidth_limit(s: &str) -> (r: Option<BandwidthLimit>)
    ensures
        match r {
            Some(l) => uppercase_of(spec_trim(s@)).len() > 0 && (l.number@, l.unit) == split_limit(
                uppercase_of(spec_trim(s@)),
            ),
            None => uppercase_of(spec_trim(s@)).len() == 0,
        },
{
    let t: String = to_uppercase(trim(s).as_str());
    if t.as_str().is_empty() {
        return None;
    }
    Some(split_bandwidth_limit(t.as_str()))
}

/// The larger of two numbers.
pub open spec fn most(a: int, b: int) -> int {
    if a >= b {
        a
    } else {
        b
    }
}

/// How much may be read now into `room` bytes: what the limit leaves, or at least
/// `min_bytes`, where there is room for it.
pub fn read_limit(available: usize, room: usize, min_bytes: usize) -> (n: usize)
    ensures
        n == least(most(least(available as int, room as int), min_bytes as int), room as int),
{
    let fits: usize = if available <= room {
        available
    } else {
        room
    };
    let wanted: usize = if fits >= min_bytes {
        fits
    } else {
        min_bytes
    };
    if wanted <= room {
        wanted
    } else {
        room
    }
}

/// How much of `len` bytes may be written now: what the limit leaves, or at least
/// `min_bytes`, where there are as many.
pub fn write_limit(available: usize, len: usize, min_bytes: usize) -> (n: usize)
    ensures
        n == least(most(available as int, min_bytes as int), len as int),
{
    let wanted: usize = if available >= min_bytes {
        available
    } else {
        min_bytes
    };
    if wanted <= len {
        wanted
    } else {
        len
    }
}

/// Reads and writes are limited alike, and a limit never stops them: where there is
/// something to move, and the least amount is not nothing, something is moved.
pub proof fn law_limits_never_stall(available: int, room: int, min_bytes: int)
    requires
        available >= 0,
        room > 0,
        min_bytes > 0,
    ensures
        least(most(least(available, room), min_bytes), room) == least(
            most(available, min_bytes),
            room,
        ),
        least(most(available, min_bytes), room) > 0,
{
}

} // verus!
