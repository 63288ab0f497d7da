use vstd::prelude::*;
use vstd::bytes::spec_u32_from_le_bytes;
use vstd::bytes::spec_u64_from_le_bytes;
use vstd::bytes::u32_from_le_bytes;
use vstd::slice::slice_subrange;
use vstd::slice::slice_to_vec;
use vstd::utf8::decode_utf8;
use vstd::utf8::valid_utf8;

verus! {

/// A length-prefixed text payload as the wire schema lays it out, read at
/// byte offset `start`: a 32-bit little-endian byte count, then that many
/// bytes which must form valid UTF-8. Bytes after the payload are ignored.
pub open spec fn spec_decode_string_from(b: Seq<u8>, start: int) -> Option<Seq<char>> {
    if start < 0 || b.len() < start + 4 {
        None
    } else {
        let n = spec_u32_from_le_bytes(b.subrange(start, start + 4)) as int;
        if b.len() < start + 4 + n {
            None
        } else if valid_utf8(b.subrange(start + 4, start + 4 + n)) {
            Some(decode_utf8(b.subrange(start + 4, start + 4 + n)))
        } else {
            None
        }
    }
}

/// The wire form of a bid's parameter: one length-prefixed text payload.
pub open spec fn spec_decode_message(b: Seq<u8>) -> Option<Seq<char>> {
    spec_decode_string_from(b, 0)
}

/// The wire form of the initialization parameter: a 64-bit little-endian
/// minimum increment followed by a length-prefixed text payload.
pub open spec fn spec_decode_init(b: Seq<u8>) -> Option<(u64, Seq<char>)> {
    if b.len() < 8 {
        None
    } else {
        match spec_decode_string_from(b, 8) {
            Some(msg) => Some((spec_u64_from_le_bytes(b.subrange(0, 8)), msg)),
            None => None,
        }
    }
}

/// Relies on `String::from_utf8`: it succeeds exactly on valid UTF-8 input
/// and returns the character sequence those bytes encode.
#[verifier::external_body]
fn string_from_utf8(bytes: Vec<u8>) -> (r: Option<String>)
    ensures
        r is Some <==> valid_utf8(bytes@),
        r matches Some(s) ==> s@ == decode_utf8(bytes@),
{
    String::from_utf8(bytes).ok()
}

/// Reads one length-prefixed UTF-8 text payload starting at byte `start`.
pub fn decode_string_from(b: &[u8], start: usize) -> (r: Option<String>)
    ensures
        r matches Some(s) ==> spec_decode_string_from(b@, start as int) == Some(s@),
        r is None ==> spec_decode_string_from(b@, start as int) is None,
{
    if b.len() < 4 || b.len() - 4 < start {
        return None;
    }
    let len_field = u32_from_le_bytes(slice_subrange(b, start, start + 4));
    let n = len_field as usize;
    if b.len() - (start + 4) < n {
        return None;
    }
    let payload = slice_subrange(b, start + 4, start + 4 + n);
    string_from_utf8(slice_to_vec(payload))
}

} // verus!
