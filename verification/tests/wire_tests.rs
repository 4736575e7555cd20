use ctf_tcp_utils::decode_chunk;
use ctf_tcp_utils::frame_answer;
use ctf_tcp_utils::text_from_chunks;

#[test]
fn frame_answer_appends_one_newline() {
    assert_eq!(frame_answer("x"), "x\n");
}

#[test]
fn frame_answer_keeps_existing_newline() {
    assert_eq!(frame_answer("x\n"), "x\n\n");
}

#[test]
fn frame_answer_on_empty_answer() {
    assert_eq!(frame_answer(""), "\n");
}

#[test]
fn decode_chunk_reads_ascii() {
    assert_eq!(decode_chunk(b"hello"), "hello");
}

#[test]
fn decode_chunk_reads_multibyte() {
    let text = "caf\u{e9} \u{1f980}";
    assert_eq!(decode_chunk(text.as_bytes()), text);
}

#[test]
fn decode_chunk_replaces_invalid_bytes() {
    assert_eq!(decode_chunk(&[0xff, 0xfe, 0x41]), "\u{fffd}\u{fffd}A");
}

#[test]
fn decode_chunk_keeps_valid_text_around_an_invalid_byte() {
    assert_eq!(decode_chunk(&[0x41, 0xff, 0x42]), "A\u{fffd}B");
}

#[test]
fn text_from_chunks_concatenates_in_arrival_order() {
    let chunks = vec![b"he".to_vec(), b"llo ".to_vec(), b"world".to_vec()];
    assert_eq!(text_from_chunks(&chunks), "hello world");
}

#[test]
fn text_from_chunks_matches_one_single_read() {
    let chunked = vec![b"he".to_vec(), b"llo".to_vec()];
    let single = vec![b"hello".to_vec()];
    assert_eq!(text_from_chunks(&chunked), text_from_chunks(&single));
}

#[test]
fn text_from_chunks_on_no_data_is_empty() {
    let chunks: Vec<Vec<u8>> = Vec::new();
    assert_eq!(text_from_chunks(&chunks), "");
}

#[test]
fn text_from_chunks_stops_at_zero_byte_read() {
    let chunks = vec![b"hello".to_vec(), Vec::new(), b"late".to_vec()];
    assert_eq!(text_from_chunks(&chunks), "hello");
}

#[test]
fn text_from_chunks_replaces_a_split_multibyte_character() {
    // A multi-byte character split across a chunk boundary leaves each chunk
    // invalid on its own, and each half is replaced separately: chunked
    // drains match a single read only when the chunks are valid UTF-8 by
    // themselves.
    let chunks = vec![vec![0xc3u8], vec![0xa9u8]];
    assert_eq!(text_from_chunks(&chunks), "\u{fffd}\u{fffd}");
    let single = vec![vec![0xc3u8, 0xa9u8]];
    assert_eq!(text_from_chunks(&single), "\u{e9}".to_string());
}
