use ypd131bup2midi::cli::{check_input_entry, command_for_args, Command};
use ypd131bup2midi::container::extract_midi_data;
use ypd131bup2midi::naming::generate_output_filename;
use ypd131bup2midi::smf::encode_midi_file;
use ypd131bup2midi::{convert, ConvertError};

const MTHD_HEADER: [u8; 14] = [
    0x4D, 0x54, 0x68, 0x64, 0, 0, 0, 6, 0, 0, 0, 1, 0, 0x60,
];

/// A container of `total` bytes whose byte at offset `i` is `i % 251`,
/// with a chunk header carrying `signature` and `declared`.
fn container(total: usize, signature: [u8; 4], declared: u32) -> Vec<u8> {
    let mut c: Vec<u8> = (0..total).map(|i| (i % 251) as u8).collect();
    c[284..288].copy_from_slice(&signature);
    c[288..292].copy_from_slice(&declared.to_be_bytes());
    c
}

const MTRK: [u8; 4] = *b"MTrk";

#[test]
fn short_chunk_is_read_in_one_piece() {
    let c = container(292 + 10, MTRK, 10);
    let p = extract_midi_data(&c).unwrap();
    assert_eq!(p.len(), 10);
    assert_eq!(&p[..9], &c[292..301]);
    assert_eq!(p[9], 0);
}

#[test]
fn short_chunk_of_largest_unfragmented_length() {
    let c = container(292 + 503, MTRK, 504);
    let p = extract_midi_data(&c).unwrap();
    assert_eq!(p.len(), 504);
    assert_eq!(&p[..503], &c[292..795]);
    assert_eq!(p[503], 0);
}

#[test]
fn fragmented_chunk_skips_interleaved_block() {
    let n: usize = 600;
    let c = container(292 + 504 + 512 + (n - 1 - 504), MTRK, n as u32);
    let p = extract_midi_data(&c).unwrap();
    assert_eq!(p.len(), n);
    assert_eq!(&p[..503], &c[292..795]);
    assert_eq!(p[503], 0);
    assert_eq!(&p[504..n - 1], &c[1308..1308 + (n - 1 - 504)]);
    assert_eq!(p[n - 1], 0);
}

#[test]
fn fragmented_chunk_of_smallest_length() {
    let c = container(292 + 504 + 512, MTRK, 505);
    let p = extract_midi_data(&c).unwrap();
    assert_eq!(p.len(), 505);
    assert_eq!(&p[..503], &c[292..795]);
    assert_eq!(p[503], 0);
    assert_eq!(p[504], 0);
}

#[test]
fn empty_chunk_gives_empty_payload() {
    let c = container(292, MTRK, 0);
    assert_eq!(extract_midi_data(&c).unwrap(), Vec::<u8>::new());
}

#[test]
fn declared_length_is_big_endian() {
    // 0x0102 = 258 bytes; read little-endian it would be far too long.
    let c = container(292 + 257, MTRK, 0x0102);
    let p = extract_midi_data(&c).unwrap();
    assert_eq!(p.len(), 258);
}

#[test]
fn wrong_signature_is_layout_mismatch() {
    let c = container(2000, *b"MThd", 10);
    assert_eq!(extract_midi_data(&c), Err(ConvertError::LayoutMismatch));
    assert_eq!(convert(&c), Err(ConvertError::LayoutMismatch));
    let reversed = container(2000, *b"krTM", 10);
    assert_eq!(extract_midi_data(&reversed), Err(ConvertError::LayoutMismatch));
}

#[test]
fn truncated_chunk_is_end_of_data() {
    let c = container(292 + 8, MTRK, 10);
    assert_eq!(extract_midi_data(&c), Err(ConvertError::UnexpectedEof));
    let f = container(292 + 504 + 512 + 10, MTRK, 600);
    assert_eq!(extract_midi_data(&f), Err(ConvertError::UnexpectedEof));
    assert_eq!(convert(&f), Err(ConvertError::UnexpectedEof));
}

#[test]
fn chunk_one_byte_short_is_still_read() {
    // Only declared - 1 bytes are read, so 291 + n bytes suffice.
    let c = container(292 + 9, MTRK, 10);
    assert_eq!(extract_midi_data(&c).unwrap().len(), 10);
}

#[test]
fn container_without_full_header_is_end_of_data() {
    assert_eq!(extract_midi_data(&Vec::new()), Err(ConvertError::UnexpectedEof));
    let mut c = vec![0u8; 291];
    c[284..288].copy_from_slice(&MTRK);
    assert_eq!(extract_midi_data(&c), Err(ConvertError::UnexpectedEof));
}

#[test]
fn emitted_file_has_fixed_header() {
    let payload: Vec<u8> = (0..258u32).map(|i| i as u8).collect();
    let f = encode_midi_file(&payload);
    assert_eq!(f.len(), 22 + 258);
    assert_eq!(&f[..14], &MTHD_HEADER);
    assert_eq!(&f[14..18], b"MTrk");
    assert_eq!(&f[18..22], &[0, 0, 1, 2]);
    assert_eq!(&f[22..], &payload[..]);
}

#[test]
fn emitted_file_of_empty_payload() {
    let f = encode_midi_file(&Vec::new());
    let mut expected = MTHD_HEADER.to_vec();
    expected.extend_from_slice(b"MTrk");
    expected.extend_from_slice(&[0, 0, 0, 0]);
    assert_eq!(f, expected);
}

#[test]
fn convert_wraps_extracted_payload() {
    let c = container(292 + 9, MTRK, 10);
    let f = convert(&c).unwrap();
    assert_eq!(&f[..14], &MTHD_HEADER);
    assert_eq!(&f[14..22], &[0x4D, 0x54, 0x72, 0x6B, 0, 0, 0, 10]);
    assert_eq!(&f[22..31], &c[292..301]);
    assert_eq!(f[31], 0);
    assert_eq!(f.len(), 32);
}

#[test]
fn output_filename_replaces_extension() {
    assert_eq!(generate_output_filename(&"song.bup".to_string()), "song.mid");
    assert_eq!(generate_output_filename(&"archive.v1.bup".to_string()), "archive.v1.mid");
    assert_eq!(generate_output_filename(&"noext".to_string()), "noext.mid");
}

#[test]
fn output_filename_edge_cases() {
    assert_eq!(generate_output_filename(&String::new()), ".mid");
    assert_eq!(generate_output_filename(&"trailing.".to_string()), "trailing.mid");
    assert_eq!(generate_output_filename(&"dir.d/noext".to_string()), "dir.mid");
}

#[test]
fn directory_input_is_invalid() {
    let e = check_input_entry(true, false).unwrap_err();
    assert_eq!(e, ConvertError::NotAFile);
    assert!(e.is_invalid_input());
}

#[test]
fn missing_input_is_not_found() {
    assert_eq!(check_input_entry(false, false), Err(ConvertError::NotFound));
    assert_eq!(check_input_entry(true, true), Ok(()));
}

#[test]
fn error_classes() {
    assert!(ConvertError::LayoutMismatch.is_invalid_input());
    assert!(!ConvertError::NotFound.is_invalid_input());
    assert!(!ConvertError::UnexpectedEof.is_invalid_input());
    assert!(!ConvertError::Io.is_invalid_input());
}

#[test]
fn arguments_decide_command() {
    assert_eq!(command_for_args(&vec![]), Command::Usage);
    assert_eq!(
        command_for_args(&vec!["song.bup".to_string()]),
        Command::Convert("song.bup".to_string())
    );
    assert_eq!(
        command_for_args(&vec!["a".to_string(), "b".to_string()]),
        Command::TooManyArguments
    );
}
