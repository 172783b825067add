use ini2command::pipeline::{convert, TranscodePipeline, INPUT_BUFFER_LEN};
use ini2command::registry::get_encoding;

fn pipeline(src: u32, dst: u32) -> TranscodePipeline {
    let s = get_encoding(src).expect("source encoding");
    let d = get_encoding(dst).expect("destination encoding");
    TranscodePipeline::new(s, d)
}

fn transcode_once(src: u32, input: &[u8]) -> Vec<u8> {
    let mut p = pipeline(src, 65001);
    let mut out = Vec::new();
    convert(&mut p, input, true, &mut out);
    out
}

fn count_ascii_shift(out: &[u8]) -> usize {
    out.windows(3).filter(|w| *w == &b"\x1B(B"[..]).count()
}

#[test]
fn cafe_split_before_the_accent() {
    // single-byte Western source, the accented byte arriving in the second read
    let mut p = pipeline(1252, 65001);
    let mut out = Vec::new();
    p.process_chunk(b"caf", false, &mut out);
    p.process_chunk(&[0xE9], true, &mut out);
    assert_eq!(out, vec![b'c', b'a', b'f', 0xC3, 0xA9]);
}

#[test]
fn split_point_does_not_change_the_output() {
    // a multi-byte character straddling the read boundary decodes the same
    let input: &[u8] = &[b'c', b'a', b'f', 0xC3, 0xA9];
    let whole = {
        let mut p = pipeline(65001, 65001);
        let mut out = Vec::new();
        p.process_chunk(input, true, &mut out);
        out
    };
    for cut in 0..=input.len() {
        let mut p = pipeline(65001, 65001);
        let mut out = Vec::new();
        p.process_chunk(&input[..cut], false, &mut out);
        p.process_chunk(&input[cut..], true, &mut out);
        assert_eq!(out, whole, "split at {}", cut);
    }
}

#[test]
fn ascii_passes_through_unchanged() {
    let mut input: Vec<u8> = vec![b'\t', b'\n', b'\r'];
    input.extend(0x20u8..0x7F);
    for cp in [1252u32, 850, 866, 932, 65001] {
        let out = transcode_once(cp, &input);
        assert_eq!(out, input, "code page {}", cp);
    }
}

#[test]
fn empty_source_produces_empty_output() {
    let out = transcode_once(1252, b"");
    assert!(out.is_empty());
}

#[test]
fn chunk_exactly_filling_the_input_buffer_is_fully_drained() {
    let input = vec![b'x'; INPUT_BUFFER_LEN];
    let out = transcode_once(1252, &input);
    assert_eq!(out, input);
}

#[test]
fn source_longer_than_every_buffer_is_fully_drained() {
    let input = vec![b'y'; 3 * INPUT_BUFFER_LEN + 7];
    let out = transcode_once(1252, &input);
    assert_eq!(out, input);
    // the same source as one oversized chunk
    let mut p = pipeline(1252, 65001);
    let mut direct = Vec::new();
    p.process_chunk(&input, true, &mut direct);
    assert_eq!(direct, input);
}

#[test]
fn output_larger_than_the_output_buffer_is_fully_drained() {
    // each windows-1252 byte 0xE9 becomes two output bytes
    let input = vec![0xE9u8; 3000];
    let out = transcode_once(1252, &input);
    let expected: Vec<u8> = std::iter::repeat([0xC3u8, 0xA9])
        .take(3000)
        .flatten()
        .collect();
    assert_eq!(out, expected);
}

#[test]
fn finalization_bytes_appear_exactly_once_at_the_end() {
    // a destination with a trailing reset sequence, fed in two reads
    let input = "\u{3042}\u{3044}".as_bytes();
    let mut p = pipeline(65001, 50220);
    let mut out = Vec::new();
    p.process_chunk(&input[..4], false, &mut out);
    p.process_chunk(&input[4..], true, &mut out);
    assert_eq!(count_ascii_shift(&out), 1);
    assert!(out.ends_with(b"\x1B(B"));
}

#[test]
fn no_finalization_before_the_end_of_the_source() {
    let input = "\u{3042}".as_bytes();
    let mut p = pipeline(65001, 50220);
    let mut out = Vec::new();
    p.process_chunk(input, false, &mut out);
    assert_eq!(count_ascii_shift(&out), 0);
    p.process_chunk(b"", true, &mut out);
    assert_eq!(count_ascii_shift(&out), 1);
    assert!(out.ends_with(b"\x1B(B"));
}

#[test]
fn one_pipeline_serves_two_streams_with_one_finalization() {
    // the end-of-source flag is raised only for the second stream
    let mut p = pipeline(65001, 50220);
    let mut out = Vec::new();
    convert(&mut p, "\u{3042}".as_bytes(), false, &mut out);
    assert!(p.is_ready());
    convert(&mut p, "\u{3044}".as_bytes(), true, &mut out);
    assert!(!p.is_ready());
    assert_eq!(count_ascii_shift(&out), 1);
    assert!(out.ends_with(b"\x1B(B"));
}

#[test]
fn malformed_bytes_are_replaced_not_fatal() {
    // 0xFF never begins a valid UTF-8 sequence; it becomes U+FFFD
    let out = transcode_once(65001, &[b'a', 0xFF, b'b']);
    assert_eq!(out, vec![b'a', 0xEF, 0xBF, 0xBD, b'b']);
}

#[test]
fn override_850_decodes_with_the_ibm866_table() {
    // byte 0xE0 is the Cyrillic letter er in IBM866
    let out = transcode_once(850, &[0xE0]);
    assert_eq!(out, vec![0xD1, 0x80]);
}

#[test]
fn verbatim_flag_matches_the_encodings() {
    assert!(pipeline(1252, 65001).transcodes_ascii_verbatim());
    assert!(pipeline(866, 65001).transcodes_ascii_verbatim());
    // an ISO-2022-JP destination and a UTF-16 source both disqualify
    assert!(!pipeline(65001, 50220).transcodes_ascii_verbatim());
    assert!(!pipeline(1200, 65001).transcodes_ascii_verbatim());
}
