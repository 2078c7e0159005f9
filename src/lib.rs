//! Converts a digital piano's "BUP" backup container into a single-track
//! Standard MIDI File.
//!
//! The container holds one MIDI track chunk at a fixed offset whose data is
//! interrupted by a block of unrelated bytes. The library checks the chunk,
//! reassembles its data and wraps it in a fresh SMF header.

pub mod cli;
pub mod container;
pub mod endian;
pub mod naming;
pub mod smf;

use crate::container::{
    declared_length, extract_midi_data, extraction_error, lemma_fragmented_payload,
    lemma_unfragmented_payload, reassembled_payload,
};
use crate::endian::be_u32_value;
use crate::smf::{encode_midi_file, lemma_emitted_header_fields, midi_file};
use vstd::prelude::*;

verus! {

/// Why a conversion failed.
#[derive(Clone, Copy, Debug, PartialEq, Eq, Structural)]
pub enum ConvertError {
    /// The input path names no entry.
    NotFound,
    /// The input path names a directory or another entry that is not a file.
    NotAFile,
    /// The track chunk signature is not where this container layout puts it.
    LayoutMismatch,
    /// The container ends before all the bytes to be read.
    UnexpectedEof,
    /// Reading or writing a file failed.
    Io,
}

impl ConvertError {
    /// Whether the error belongs to the "invalid input" class: an input that
    /// is not a file, or a file that is not a container of this layout.
    pub fn is_invalid_input(&self) -> (r: bool)
        ensures
            r == (*self == ConvertError::NotAFile || *self == ConvertError::LayoutMismatch),
    {
        match self {
            ConvertError::NotAFile => true,
            ConvertError::LayoutMismatch => true,
            _ => false,
        }
    }
}

/// Converts the bytes of a backup container into the bytes of a
/// single-track Standard MIDI File that carries its track payload.
pub fn convert(contents: &Vec<u8>) -> (r: Result<Vec<u8>, ConvertError>)
    ensures
        r is Err <==> extraction_error(contents@) is Some,
        r is Err ==> r->Err_0 == extraction_error(contents@)->Some_0,
        r is Ok ==> r->Ok_0@ == midi_file(reassembled_payload(contents@)),
{
    match extract_midi_data(contents) {
        Err(e) => Err(e),
        Ok(payload) => Ok(encode_midi_file(&payload)),
    }
}

/// Every successful conversion emits, byte for byte, the fixed header chunk
/// ("MThd", length 6, format 0, one track, division 0x0060), then "MTrk"
/// and a track length equal to the length that the container declares.
pub proof fn lemma_converted_file_header(c: Seq<u8>)
    requires
        extraction_error(c) is None,
    ensures
        midi_file(reassembled_payload(c)).subrange(0, 18) == seq![
            0x4Du8, 0x54, 0x68, 0x64, 0, 0, 0, 6, 0, 0, 0, 1, 0, 0x60, 0x4D, 0x54, 0x72, 0x6B,
        ],
        be_u32_value(midi_file(reassembled_payload(c)).subrange(18, 22)) == declared_length(c),
{
    if declared_length(c) <= 504 {
        lemma_unfragmented_payload(c);
    } else {
        lemma_fragmented_payload(c);
    }
    lemma_emitted_header_fields(reassembled_payload(c));
}

} // verus!
