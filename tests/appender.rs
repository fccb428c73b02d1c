use base64::Engine;
use ytdl_desktop::appender::{ChunkAppender, Event, Phase, Request};
use ytdl_desktop::codec::decode_chunk;
use ytdl_desktop::error::ChunkError;

/// Drives one call against an in-memory file. `open_ok` and `write_ok` say
/// whether the host's open and write succeed; `None` stands for no file.
fn run_call(
    file: &mut Option<Vec<u8>>,
    text: &str,
    open_ok: bool,
    write_ok: bool,
) -> (Result<(), ChunkError>, Vec<&'static str>) {
    let mut trail = Vec::new();
    let (mut appender, mut request) = ChunkAppender::begin(text);
    loop {
        let event = match request {
            Request::OpenAppend => {
                trail.push("open");
                if open_ok {
                    if file.is_none() {
                        *file = Some(Vec::new());
                    }
                    Event::Succeeded
                } else {
                    Event::Failed("No such file or directory (os error 2)".to_string())
                }
            }
            Request::Write(bytes) => {
                trail.push("write");
                if write_ok {
                    file.as_mut().unwrap().extend_from_slice(&bytes);
                    Event::Succeeded
                } else {
                    Event::Failed("No space left on device (os error 28)".to_string())
                }
            }
            Request::Reply(result) => {
                assert!(appender.is_finished());
                return (result, trail);
            }
        };
        assert!(!appender.is_finished());
        request = appender.on_event(event);
    }
}

/// A fixed pseudo-random byte stream (xorshift), so that runs repeat.
fn noise(len: usize, seed: u64) -> Vec<u8> {
    let mut x = seed;
    let mut out = Vec::with_capacity(len);
    for _ in 0..len {
        x ^= x << 13;
        x ^= x >> 7;
        x ^= x << 17;
        out.push((x >> 24) as u8);
    }
    out
}

#[test]
fn decode_chunk_hello() {
    assert_eq!(decode_chunk("aGVsbG8=").ok(), Some(b"hello".to_vec()));
}

#[test]
fn decode_chunk_world() {
    assert_eq!(decode_chunk("IHdvcmxk").ok(), Some(b" world".to_vec()));
}

#[test]
fn decode_chunk_one_and_two_byte_tails() {
    assert_eq!(decode_chunk("/w==").ok(), Some(vec![0xff]));
    assert_eq!(decode_chunk("AAE=").ok(), Some(vec![0x00, 0x01]));
    assert_eq!(decode_chunk("+/+/").ok(), Some(vec![0xfb, 0xff, 0xbf]));
}

#[test]
fn decode_chunk_empty() {
    assert_eq!(decode_chunk("").ok(), Some(Vec::new()));
}

#[test]
fn decode_chunk_malformed() {
    match decode_chunk("!!notbase64!!") {
        Err(ChunkError::Decode(m)) => assert!(!m.is_empty()),
        _ => panic!("expected a decode error"),
    }
}

#[test]
fn decode_chunk_rejects_non_canonical() {
    for text in ["aGVsbG8", "aGVsbG8==", "/x==", "AAF=", "aGVs bG8=", "aGVsbG8=\n", "=AAA", "A"] {
        match decode_chunk(text) {
            Err(ChunkError::Decode(_)) => {}
            _ => panic!("accepted {:?}", text),
        }
    }
}

#[test]
fn decode_chunk_round_trips_every_length() {
    for len in 0..40usize {
        let bytes = noise(len, 7 + len as u64);
        let text = base64::engine::general_purpose::STANDARD.encode(&bytes);
        assert_eq!(decode_chunk(&text).ok(), Some(bytes));
    }
}

#[test]
fn fresh_path_gets_hello() {
    let mut file = None;
    let (result, trail) = run_call(&mut file, "aGVsbG8=", true, true);
    assert!(result.is_ok());
    assert_eq!(trail, vec!["open", "write"]);
    assert_eq!(file, Some(b"hello".to_vec()));
    assert_eq!(file.unwrap().len(), 5);
}

#[test]
fn existing_file_gets_world_appended() {
    let mut file = Some(b"hello".to_vec());
    let (result, _) = run_call(&mut file, "IHdvcmxk", true, true);
    assert!(result.is_ok());
    assert_eq!(file, Some(b"hello world".to_vec()));
    assert_eq!(file.unwrap().len(), 11);
}

#[test]
fn malformed_chunk_touches_nothing() {
    let mut file = None;
    let (result, trail) = run_call(&mut file, "!!notbase64!!", true, true);
    assert!(matches!(result, Err(ChunkError::Decode(_))));
    assert!(trail.is_empty());
    assert_eq!(file, None);

    let mut file = Some(b"kept".to_vec());
    let (result, _) = run_call(&mut file, "!!notbase64!!", true, true);
    assert!(matches!(result, Err(ChunkError::Decode(_))));
    assert_eq!(file, Some(b"kept".to_vec()));
}

#[test]
fn empty_chunk_creates_empty_file() {
    let mut file = None;
    let (result, trail) = run_call(&mut file, "", true, true);
    assert!(result.is_ok());
    assert_eq!(trail, vec!["open", "write"]);
    assert_eq!(file, Some(Vec::new()));

    let mut file = Some(b"abc".to_vec());
    let (result, _) = run_call(&mut file, "", true, true);
    assert!(result.is_ok());
    assert_eq!(file, Some(b"abc".to_vec()));
}

#[test]
fn failed_open_is_io_error_and_creates_nothing() {
    let mut file = None;
    let (result, trail) = run_call(&mut file, "AAAA", false, true);
    match result {
        Err(ChunkError::Io(m)) => assert_eq!(m, "No such file or directory (os error 2)"),
        _ => panic!("expected an I/O error"),
    }
    assert_eq!(trail, vec!["open"]);
    assert_eq!(file, None);
}

#[test]
fn failed_write_is_io_error() {
    let mut file = None;
    let (result, trail) = run_call(&mut file, "AAAA", true, false);
    match result {
        Err(e) => assert_eq!(e.into_message(), "No space left on device (os error 28)"),
        Ok(()) => panic!("expected an I/O error"),
    }
    assert_eq!(trail, vec!["open", "write"]);
}

#[test]
fn two_mebibyte_chunks_concatenate() {
    let first = noise(1 << 20, 0x9e37_79b9_7f4a_7c15);
    let second = noise(1 << 20, 0x2545_f491_4f6c_dd1d);
    let mut file = None;
    for chunk in [&first, &second] {
        let text = base64::engine::general_purpose::STANDARD.encode(chunk);
        let (result, _) = run_call(&mut file, &text, true, true);
        assert!(result.is_ok());
    }
    let file = file.unwrap();
    assert_eq!(file.len(), 2 << 20);
    assert_eq!(&file[..1 << 20], &first[..]);
    assert_eq!(&file[1 << 20..], &second[..]);
}

#[test]
fn serial_chunks_concatenate_in_order() {
    let chunks: Vec<Vec<u8>> = (0..6).map(|i| noise(i * 5 + 1, 3 + i as u64)).collect();
    let mut file = None;
    for chunk in &chunks {
        let text = base64::engine::general_purpose::STANDARD.encode(chunk);
        assert!(run_call(&mut file, &text, true, true).0.is_ok());
    }
    assert_eq!(file, Some(chunks.concat()));
}

#[test]
fn appender_phases() {
    let (mut appender, request) = ChunkAppender::begin("aGVsbG8=");
    assert_eq!(appender.phase, Phase::Opening);
    assert!(matches!(request, Request::OpenAppend));
    match appender.on_event(Event::Succeeded) {
        Request::Write(bytes) => assert_eq!(bytes, b"hello".to_vec()),
        _ => panic!("expected a write"),
    }
    assert_eq!(appender.phase, Phase::Writing);
    assert!(matches!(appender.on_event(Event::Succeeded), Request::Reply(Ok(()))));
    assert!(appender.is_finished());
}

#[test]
fn error_message_is_handed_over() {
    assert_eq!(ChunkError::Io("denied".to_string()).into_message(), "denied");
    assert_eq!(ChunkError::Decode("bad".to_string()).into_message(), "bad");
}
