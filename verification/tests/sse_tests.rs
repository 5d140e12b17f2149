use chat_proxy::sse::{decode_fragments, SseDecoder};
use chat_proxy::wire::sse_frame;

fn payloads_as_strings(out: Vec<Vec<u8>>) -> Vec<String> {
    out.into_iter().map(|p| String::from_utf8(p).unwrap()).collect()
}

fn decode_whole(input: &[u8]) -> Vec<String> {
    let mut dec = SseDecoder::new();
    payloads_as_strings(dec.feed(input))
}

#[test]
fn decodes_data_lines_and_skips_others() {
    let input = b"data: {\"a\":1}\n\ndata: {\"b\":2}\n: comment\nevent: x\ndata: {\"c\":3}\n";
    let got = decode_whole(input);
    assert_eq!(got, vec!["{\"a\":1}", "{\"b\":2}", "{\"c\":3}"]);
}

#[test]
fn incomplete_trailing_line_is_not_emitted() {
    let got = decode_whole(b"data: {\"a\":1}\ndata: {\"b\":");
    assert_eq!(got, vec!["{\"a\":1}"]);
}

#[test]
fn crlf_line_endings_decode_like_lf() {
    let got = decode_whole(b"data: one\r\ndata: two\r\n");
    assert_eq!(got, vec!["one", "two"]);
}

#[test]
fn done_sentinel_ends_the_sequence() {
    let got = decode_whole(b"data: one\ndata: [DONE]\ndata: after\n");
    assert_eq!(got, vec!["one"]);
}

#[test]
fn done_sentinel_is_recognized_with_surrounding_whitespace() {
    let got = decode_whole(b"data: one\ndata:  [DONE] \ndata: after\n");
    assert_eq!(got, vec!["one"]);
}

#[test]
fn boundary_insensitive_byte_by_byte() {
    let input: &[u8] = b"data: {\"x\":\"ab\"}\ndata: {\"y\":\"cd\"}\ndata: [DONE]\n";
    let whole = decode_whole(input);

    let mut dec = SseDecoder::new();
    let mut got = Vec::new();
    for b in input {
        got.extend(payloads_as_strings(dec.feed(&[*b])));
    }
    assert_eq!(got, whole);
    assert_eq!(whole, vec!["{\"x\":\"ab\"}", "{\"y\":\"cd\"}"]);
}

#[test]
fn boundary_insensitive_across_line_split() {
    let input: &[u8] = b"data: hello world\ndata: second\n";
    let whole = decode_whole(input);

    // Split in the middle of the first line and in the middle of the prefix
    // of the second.
    let fragments = vec![b"data: hel".to_vec(), b"lo world\nda".to_vec(), b"ta: second\n".to_vec()];
    let got = payloads_as_strings(decode_fragments(&fragments));
    assert_eq!(got, whole);
    assert_eq!(got, vec!["hello world", "second"]);
}

#[test]
fn fragments_equal_contiguous_for_various_cuts() {
    let input: Vec<u8> = b"data: a\r\n: keepalive\ndata: bb\n\ndata: ccc\ndata: [DONE]\n".to_vec();
    let whole = payloads_as_strings(decode_fragments(&vec![input.clone()]));
    for cut in [1usize, 2, 3, 5, 7, 11, 13] {
        let fragments: Vec<Vec<u8>> = input.chunks(cut).map(|c| c.to_vec()).collect();
        let got = payloads_as_strings(decode_fragments(&fragments));
        assert_eq!(got, whole, "split width {} changed the decoded payloads", cut);
    }
    assert_eq!(whole, vec!["a", "bb", "ccc"]);
}

#[test]
fn framing_and_decoding_round_trip() {
    let payloads = ["{\"id\":\"c1\"}", "{\"id\":\"c2\",\"t\":\"x y\"}"];
    let mut wire = String::new();
    for p in payloads {
        wire.push_str(&sse_frame(p));
    }
    assert_eq!(wire, "data: {\"id\":\"c1\"}\n\ndata: {\"id\":\"c2\",\"t\":\"x y\"}\n\n");
    let got = decode_whole(wire.as_bytes());
    assert_eq!(got, payloads.to_vec());
}

#[test]
fn decoder_reports_done() {
    let mut dec = SseDecoder::new();
    dec.feed(b"data: one\n");
    assert!(!dec.is_done());
    dec.feed(b"data: [DONE]\n");
    assert!(dec.is_done());
}
