//! The backup container: where its track chunk lies and how its data is
//! put back together.

use crate::endian::{be_u32_value, read_be_u32};
use crate::ConvertError;
use vstd::prelude::*;

verus! {

/// Offset of the embedded track chunk header.
pub const CHUNK_HEADER_OFFSET: usize = 284;

/// Size of a chunk header: a signature and a length, four bytes each.
pub const CHUNK_HEADER_SIZE: usize = 8;

/// Offset of the first byte of chunk data.
pub const CHUNK_DATA_OFFSET: usize = CHUNK_HEADER_OFFSET + CHUNK_HEADER_SIZE;

/// "MTrk" read as a big-endian integer.
pub const MTRK_TOKEN_VALUE: u32 = 0x4D54726B;

/// Longest run of chunk data before the interleaved block.
pub const FIRST_SEGMENT_LENGTH: usize = 504;

/// Size of the interleaved block of unrelated data.
pub const TRASH_SEGMENT_LENGTH: usize = 512;

/// Offset where the chunk data continues after the interleaved block.
pub const SECOND_SEGMENT_OFFSET: usize = CHUNK_DATA_OFFSET + FIRST_SEGMENT_LENGTH
    + TRASH_SEGMENT_LENGTH;

/// The signature found at the chunk header offset.
pub open spec fn chunk_signature(c: Seq<u8>) -> int {
    be_u32_value(c.subrange(284, 288))
}

/// The chunk data length that the header declares.
pub open spec fn declared_length(c: Seq<u8>) -> int {
    be_u32_value(c.subrange(288, 292))
}

/// How many bytes the container must hold for every read of a chunk that
/// declares `n` bytes of data: one byte fewer than declared is read, and
/// past the first segment the interleaved block is skipped.
pub open spec fn bytes_needed(n: int) -> int {
    if n == 0 {
        292
    } else if n <= 504 {
        291 + n
    } else {
        291 + 512 + n
    }
}

/// The track payload of a container: as many bytes as declared, taken from
/// the chunk data with the interleaved block left out. The byte that ends
/// each segment is not read and stays zero.
pub open spec fn reassembled_payload(c: Seq<u8>) -> Seq<u8> {
    let n = declared_length(c);
    if n == 0 {
        Seq::empty()
    } else if n <= 504 {
        c.subrange(292, 291 + n).push(0)
    } else {
        c.subrange(292, 795).push(0) + c.subrange(1308, 1308 + n - 505).push(0)
    }
}

/// The error that reading the payload out of container `c` meets, if any:
/// the header is read first, then its signature checked, then the data.
pub open spec fn extraction_error(c: Seq<u8>) -> Option<ConvertError> {
    if c.len() < 292 {
        Some(ConvertError::UnexpectedEof)
    } else if chunk_signature(c) != MTRK_TOKEN_VALUE {
        Some(ConvertError::LayoutMismatch)
    } else if c.len() < bytes_needed(declared_length(c)) {
        Some(ConvertError::UnexpectedEof)
    } else {
        None
    }
}

/// Appends `src[from..to]` to `out`.
fn copy_range(out: &mut Vec<u8>, src: &Vec<u8>, from: usize, to: usize)
    requires
        from <= to <= src@.len(),
    ensures
        final(out)@ == old(out)@ + src@.subrange(from as int, to as int),
{
    let mut i: usize = from;
    while i < to
        invariant
            from <= i <= to <= src@.len(),
            out@ == old(out)@ + src@.subrange(from as int, i as int),
        decreases to - i,
    {
        out.push(src[i]);
        i = i + 1;
        assert(out@ =~= old(out)@ + src@.subrange(from as int, i as int));
    }
}

/// Reads the track payload out of the bytes of a container.
///
/// The header must carry the "MTrk" signature. A container too short for
/// the header, or for the chunk data that the header declares, is rejected
/// with `UnexpectedEof`; a wrong signature with `LayoutMismatch`.
pub fn extract_midi_data(contents: &Vec<u8>) -> (r: Result<Vec<u8>, ConvertError>)
    ensures
        r is Err <==> extraction_error(contents@) is Some,
        r is Err ==> r->Err_0 == extraction_error(contents@)->Some_0,
        r is Ok ==> r->Ok_0@ == reassembled_payload(contents@),
{
    let total = contents.len();
    if total < CHUNK_DATA_OFFSET {
        return Err(ConvertError::UnexpectedEof);
    }
    let token = read_be_u32(contents.as_slice(), CHUNK_HEADER_OFFSET);
    let declared = read_be_u32(contents.as_slice(), CHUNK_HEADER_OFFSET + 4);
    if token != MTRK_TOKEN_VALUE {
        return Err(ConvertError::LayoutMismatch);
    }
    let n = declared as u64;
    let needed: u64 = if n == 0 {
        CHUNK_DATA_OFFSET as u64
    } else if n <= FIRST_SEGMENT_LENGTH as u64 {
        CHUNK_DATA_OFFSET as u64 - 1 + n
    } else {
        CHUNK_DATA_OFFSET as u64 - 1 + TRASH_SEGMENT_LENGTH as u64 + n
    };
    if (total as u64) < needed {
        return Err(ConvertError::UnexpectedEof);
    }
    let mut payload: Vec<u8> = Vec::new();
    if n == 0 {
    } else if n <= FIRST_SEGMENT_LENGTH as u64 {
        copy_range(&mut payload, contents, CHUNK_DATA_OFFSET, CHUNK_DATA_OFFSET - 1 + n as usize);
        payload.push(0);
    } else {
        copy_range(
            &mut payload,
            contents,
            CHUNK_DATA_OFFSET,
            CHUNK_DATA_OFFSET + FIRST_SEGMENT_LENGTH - 1,
        );
        payload.push(0);
        let rest = (n - 1) as usize - FIRST_SEGMENT_LENGTH;
        copy_range(&mut payload, contents, SECOND_SEGMENT_OFFSET, SECOND_SEGMENT_OFFSET + rest);
        payload.push(0);
    }
    assert(payload@ =~= reassembled_payload(contents@));
    Ok(payload)
}

/// A chunk that declares at most 504 bytes is read in one piece: the payload
/// has the declared length, its bytes but the last are the chunk data that
/// follows the header, and its last byte is zero.
pub proof fn lemma_unfragmented_payload(c: Seq<u8>)
    requires
        extraction_error(c) is None,
        declared_length(c) <= 504,
    ensures
        reassembled_payload(c).len() == declared_length(c),
        declared_length(c) >= 1 ==> reassembled_payload(c).subrange(0, declared_length(c) - 1)
            == c.subrange(292, 292 + declared_length(c) - 1),
        declared_length(c) >= 1 ==> reassembled_payload(c)[declared_length(c) - 1] == 0,
{
    let n = declared_length(c);
    if n >= 1 {
        assert(reassembled_payload(c).subrange(0, n - 1) =~= c.subrange(292, 292 + n - 1));
    }
}

/// A chunk that declares more than 504 bytes is read in two pieces: 503
/// bytes after the header, then, past the 512-byte interleaved block, the
/// remaining `n - 1 - 504` bytes. Bytes 503 and `n - 1` of the payload, which
/// are not read, are zero.
pub proof fn lemma_fragmented_payload(c: Seq<u8>)
    requires
        extraction_error(c) is None,
        declared_length(c) > 504,
    ensures
        reassembled_payload(c).len() == declared_length(c),
        reassembled_payload(c).subrange(0, 503) == c.subrange(292, 292int + 503),
        reassembled_payload(c)[503] == 0,
        reassembled_payload(c).subrange(504, declared_length(c) - 1) == c.subrange(
            292int + 504 + 512,
            292 + 504 + 512 + (declared_length(c) - 1 - 504),
        ),
        reassembled_payload(c)[declared_length(c) - 1] == 0,
{
    let n = declared_length(c);
    let p = reassembled_payload(c);
    assert(p.subrange(0, 503) =~= c.subrange(292, 292int + 503));
    assert(p.subrange(504, n - 1) =~= c.subrange(1308, 1308 + (n - 1 - 504)));
}

/// A container that holds a header whose signature is not "MTrk" is
/// rejected as a layout mismatch.
pub proof fn lemma_wrong_signature_rejected(c: Seq<u8>)
    requires
        c.len() >= 292,
        chunk_signature(c) != 0x4D54726B,
    ensures
        extraction_error(c) == Some(ConvertError::LayoutMismatch),
{
}

/// A container shorter than its chunk header, or, with a valid header,
/// shorter than `292 + n` bytes for a declared length `n`, is rejected as
/// truncated. The one exception is a chunk of `1 <= n <= 504` bytes in a
/// container of exactly `291 + n` bytes: only `n - 1` bytes are read, so it
/// is not short.
pub proof fn lemma_truncated_rejected(c: Seq<u8>)
    requires
        c.len() < 292 || (chunk_signature(c) == MTRK_TOKEN_VALUE && c.len() < 292
            + declared_length(c) && !(1 <= declared_length(c) <= 504 && c.len() == 291
            + declared_length(c))),
    ensures
        extraction_error(c) == Some(ConvertError::UnexpectedEof),
{
}

} // verus!
