//! The descriptor-info record: lines of `key: value`, of which the byte
//! offset (`pos`) and the open flags (`flags`) are read.

use vstd::prelude::*;
use crate::text::{chars_of, find, parse_range, parse_u64, position, range_is, trim, trim_range};

verus! {

/// Why a descriptor-info record could not be used.
#[derive(Clone, Copy, Debug, PartialEq, Eq, Structural)]
pub enum InfoError {
    /// No line has the key `pos`.
    MissingPos,
    /// No line has the key `flags`.
    MissingFlags,
    /// The value of `pos` is not a number that fits 64 bits.
    InvalidPos,
    /// The value of `flags` is not a number that fits 64 bits.
    InvalidFlags,
}

/// The key and the value of a line: what stands before its first colon and
/// what stands after it. A line without a colon has neither.
pub open spec fn key_value(line: Seq<char>) -> Option<(Seq<char>, Seq<char>)> {
    let colon = position(line, ':');
    if 0 <= colon < line.len() {
        Some((line.take(colon), line.skip(colon + 1)))
    } else {
        None
    }
}

/// The value, without the white space around it, of the first line of `text`
/// whose key is `key`. Lines end at a line feed; keys are compared as they
/// stand.
pub open spec fn lookup(text: Seq<char>, key: Seq<char>) -> Option<Seq<char>>
    decreases text.len(),
{
    let end = position(text, '\n');
    match key_value(text.take(end)) {
        Some((k, v)) if k == key => Some(trim(v)),
        _ => if 0 <= end < text.len() {
            lookup(text.skip(end + 1), key)
        } else {
            None
        },
    }
}

/// The offset and the flags that a record holds, or why it holds none. A
/// missing field is reported before a malformed one, and `pos` before
/// `flags`.
pub open spec fn parse_info(text: Seq<char>) -> Result<(u64, u64), InfoError> {
    match (lookup(text, "pos"@), lookup(text, "flags"@)) {
        (None, _) => Err(InfoError::MissingPos),
        (Some(_), None) => Err(InfoError::MissingFlags),
        (Some(pos), Some(flags)) => match (parse_u64(pos), parse_u64(flags)) {
            (None, _) => Err(InfoError::InvalidPos),
            (Some(_), None) => Err(InfoError::InvalidFlags),
            (Some(p), Some(f)) => Ok((p, f)),
        },
    }
}

/// Finds the value of the first line of `chars` whose key is `key`, as the
/// range of `chars` that holds it.
pub fn lookup_range(chars: &Vec<char>, key: &Vec<char>) -> (r: Option<(usize, usize)>)
    ensures
        match r {
            Some((lo, hi)) => lo <= hi <= chars.len() && lookup(chars@, key@) == Some(
                chars@.subrange(lo as int, hi as int),
            ),
            None => lookup(chars@, key@) is None,
        },
{
    let len: usize = chars.len();
    let mut start: usize = 0;
    assert(chars@.skip(0) == chars@);
    loop
        invariant
            len == chars.len(),
            start <= len,
            lookup(chars@, key@) == lookup(chars@.skip(start as int), key@),
        decreases len - start,
    {
        let ghost rest = chars@.skip(start as int);
        let end: usize = find(chars, '\n', start, len);
        let colon: usize = find(chars, ':', start, end);
        let ghost line = chars@.subrange(start as int, end as int);
        assert(rest.take(end - start) == line);
        assert(line.take(colon - start) == chars@.subrange(start as int, colon as int));
        if colon < end && range_is(chars, start, colon, key) {
            assert(line.skip(colon - start + 1) == chars@.subrange(colon + 1, end as int));
            return Some(trim_range(chars, colon + 1, end));
        }
        if end == len {
            return None;
        }
        assert(rest.skip(end - start + 1) == chars@.skip(end + 1));
        start = end + 1;
    }
}

/// Reads the offset and the flags out of the text of a descriptor-info
/// record.
pub fn read_fdinfo(text: &str) -> (r: Result<(u64, u64), InfoError>)
    ensures
        r == parse_info(text@),
{
    let chars = chars_of(text);
    let pos_key = chars_of("pos");
    let flags_key = chars_of("flags");
    let pos = lookup_range(&chars, &pos_key);
    let flags = lookup_range(&chars, &flags_key);
    match (pos, flags) {
        (None, _) => Err(InfoError::MissingPos),
        (Some(_), None) => Err(InfoError::MissingFlags),
        (Some((plo, phi)), Some((flo, fhi))) => {
            match (parse_range(&chars, plo, phi), parse_range(&chars, flo, fhi)) {
                (None, _) => Err(InfoError::InvalidPos),
                (Some(_), None) => Err(InfoError::InvalidFlags),
                (Some(p), Some(f)) => Ok((p, f)),
            }
        },
    }
}

} // verus!
