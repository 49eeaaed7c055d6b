//! Wire framing: each record travels behind a four-byte big-endian length.

use vstd::prelude::*;
use crate::chat::ChatError;

verus! {

/// Length in bytes of the frame header.
pub const HEADER_LEN: usize = 4;

/// Largest record, in bytes, that a header can announce.
pub const MAX_RECORD_LEN: usize = 0xFFFF_FFFF;

/// The big-endian bytes of `n`.
pub open spec fn be32_bytes(n: u32) -> Seq<u8> {
    seq![(n >> 24u32) as u8, (n >> 16u32) as u8, (n >> 8u32) as u8, n as u8]
}

/// The number that four big-endian bytes stand for.
pub open spec fn be32_value(b0: u8, b1: u8, b2: u8, b3: u8) -> u32 {
    ((b0 as u32) << 24u32) | ((b1 as u32) << 16u32) | ((b2 as u32) << 8u32) | (b3 as u32)
}

/// The length announced by a header.
pub open spec fn announced_len(header: Seq<u8>) -> nat
    recommends
        header.len() == HEADER_LEN,
{
    be32_value(header[0], header[1], header[2], header[3]) as nat
}

/// The frame that carries `record`.
pub open spec fn framed(record: Seq<u8>) -> Seq<u8>
    recommends
        record.len() <= MAX_RECORD_LEN,
{
    be32_bytes(record.len() as u32) + record
}

/// The record that `frame` carries, when it is exactly one whole frame.
pub open spec fn frame_record(frame: Seq<u8>) -> Option<Seq<u8>> {
    if frame.len() >= HEADER_LEN && frame.len() - HEADER_LEN == announced_len(frame.take(4)) {
        Some(frame.skip(4))
    } else {
        None
    }
}

proof fn be32_round_trip(n: u32)
    ensures
        be32_value((n >> 24u32) as u8, (n >> 16u32) as u8, (n >> 8u32) as u8, n as u8) == n,
{
    assert(((((n >> 24u32) as u8) as u32) << 24u32) | ((((n >> 16u32) as u8) as u32) << 16u32)
        | ((((n >> 8u32) as u8) as u32) << 8u32) | ((n as u8) as u32) == n) by (bit_vector);
}

/// The header announcing a record of `len` bytes.
pub fn frame_header(len: u32) -> (r: [u8; 4])
    ensures
        r@ == be32_bytes(len),
{
    let r = [(len >> 24u32) as u8, (len >> 16u32) as u8, (len >> 8u32) as u8, len as u8];
    assert(r@ =~= be32_bytes(len));
    r
}

/// The record length that a header announces.
pub fn frame_length(header: [u8; 4]) -> (r: u32)
    ensures
        r as nat == announced_len(header@),
{
    ((header[0] as u32) << 24u32) | ((header[1] as u32) << 16u32) | ((header[2] as u32) << 8u32) | (header[3] as u32)
}

/// Frames a record: its length as four big-endian bytes, then the record.
pub fn encode_frame(record: &[u8]) -> (r: Result<Vec<u8>, ChatError>)
    ensures
        r is Ok <==> record@.len() <= MAX_RECORD_LEN,
        r is Err ==> r == Err::<Vec<u8>, ChatError>(ChatError::FrameTooLarge),
        r matches Ok(f) ==> f@ == framed(record@),
{
    if record.len() > MAX_RECORD_LEN {
        return Err(ChatError::FrameTooLarge);
    }
    let header = frame_header(record.len() as u32);
    let mut out: Vec<u8> = Vec::new();
    out.push(header[0]);
    out.push(header[1]);
    out.push(header[2]);
    out.push(header[3]);
    assert(out@ =~= header@);
    let mut i: usize = 0;
    while i < record.len()
        invariant
            i <= record@.len(),
            out@ == header@ + record@.take(i as int),
        decreases record@.len() - i,
    {
        out.push(record[i]);
        i = i + 1;
        assert(out@ =~= header@ + record@.take(i as int));
    }
    assert(record@.take(record@.len() as int) =~= record@);
    Ok(out)
}

/// The record carried by a buffer that holds exactly one whole frame.
pub fn parse_frame(frame: &[u8]) -> (r: Option<Vec<u8>>)
    ensures
        r matches Some(v) ==> frame_record(frame@) == Some(v@),
        r is None ==> frame_record(frame@) is None,
{
    if frame.len() < HEADER_LEN {
        return None;
    }
    let header = [frame[0], frame[1], frame[2], frame[3]];
    assert(header@ =~= frame@.take(4));
    let len = frame_length(header);
    if frame.len() - HEADER_LEN != len as usize {
        return None;
    }
    let record = vstd::slice::slice_to_vec(vstd::slice::slice_subrange(frame, HEADER_LEN, frame.len()));
    assert(record@ =~= frame@.skip(4));
    Some(record)
}

/// Parsing a frame gives back exactly the record that was framed.
pub proof fn frame_round_trip(record: Seq<u8>)
    requires
        record.len() <= MAX_RECORD_LEN,
    ensures
        frame_record(framed(record)) == Some(record),
{
    let f = framed(record);
    be32_round_trip(record.len() as u32);
    assert(f.take(4) =~= be32_bytes(record.len() as u32));
    assert(f.skip(4) =~= record);
}

} // verus!
