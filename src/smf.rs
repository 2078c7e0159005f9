//! The Standard MIDI File that wraps one track.

use crate::container::MTRK_TOKEN_VALUE;
use crate::endian::{be_u16_bytes, be_u32_bytes, be_u32_value, push_be_u16, push_be_u32};
use vstd::prelude::*;

verus! {

/// "MThd" read as a big-endian integer.
pub const MIDI_HEADER_TOKEN: u32 = 0x4D546864;

/// Length of the header chunk's data.
pub const MIDI_HEADER_SIZE: u32 = 6;

/// SMF format 0: a single track.
pub const MIDI_HEADER_FORMAT: u16 = 0;

/// Number of tracks in the file.
pub const MIDI_HEADER_NUM_TRACKS: u16 = 1;

/// Ticks per quarter note.
pub const MIDI_HEADER_DIVISION: u16 = 0x0060;

/// The bytes of a single-track SMF whose track data is `payload`: the header
/// chunk, then the track chunk's signature, length and data.
pub open spec fn midi_file(payload: Seq<u8>) -> Seq<u8> {
    be_u32_bytes(MIDI_HEADER_TOKEN) + be_u32_bytes(MIDI_HEADER_SIZE) + be_u16_bytes(
        MIDI_HEADER_FORMAT,
    ) + be_u16_bytes(MIDI_HEADER_NUM_TRACKS) + be_u16_bytes(MIDI_HEADER_DIVISION) + be_u32_bytes(
        MTRK_TOKEN_VALUE,
    ) + be_u32_bytes(payload.len() as u32) + payload
}

/// Encodes `payload` as the one track of a Standard MIDI File.
pub fn encode_midi_file(payload: &Vec<u8>) -> (r: Vec<u8>)
    requires
        payload@.len() <= u32::MAX,
    ensures
        r@ == midi_file(payload@),
{
    let mut out: Vec<u8> = Vec::new();
    push_be_u32(&mut out, MIDI_HEADER_TOKEN);
    push_be_u32(&mut out, MIDI_HEADER_SIZE);
    push_be_u16(&mut out, MIDI_HEADER_FORMAT);
    push_be_u16(&mut out, MIDI_HEADER_NUM_TRACKS);
    push_be_u16(&mut out, MIDI_HEADER_DIVISION);
    push_be_u32(&mut out, MTRK_TOKEN_VALUE);
    push_be_u32(&mut out, payload.len() as u32);
    let ghost head = out@;
    let mut i: usize = 0;
    while i < payload.len()
        invariant
            i <= payload@.len(),
            out@ == head + payload@.subrange(0, i as int),
        decreases payload@.len() - i,
    {
        out.push(payload[i]);
        i = i + 1;
        assert(out@ =~= head + payload@.subrange(0, i as int));
    }
    assert(payload@.subrange(0, payload@.len() as int) =~= payload@);
    out
}

/// Every emitted file starts with the fixed header: "MThd", a header length
/// of 6, format 0, one track, a division of 0x0060, then "MTrk" and the
/// payload's length, followed by the payload itself.
pub proof fn lemma_emitted_header_fields(payload: Seq<u8>)
    requires
        payload.len() <= u32::MAX,
    ensures
        midi_file(payload).len() == 22 + payload.len(),
        midi_file(payload).subrange(0, 18) == seq![
            0x4Du8, 0x54, 0x68, 0x64, 0, 0, 0, 6, 0, 0, 0, 1, 0, 0x60, 0x4D, 0x54, 0x72, 0x6B,
        ],
        be_u32_value(midi_file(payload).subrange(18, 22)) == payload.len(),
        midi_file(payload).subrange(22, 22 + payload.len() as int) == payload,
{
    let f = midi_file(payload);
    let n = payload.len() as u32;
    assert(f.subrange(0, 18) =~= seq![
        0x4Du8, 0x54, 0x68, 0x64, 0, 0, 0, 6, 0, 0, 0, 1, 0, 0x60, 0x4D, 0x54, 0x72, 0x6B,
    ]);
    assert(f.subrange(18, 22) =~= be_u32_bytes(n));
    assert(f.subrange(22, 22 + payload.len() as int) =~= payload);
}

} // verus!
