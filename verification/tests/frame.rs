use async_lsp::frame::{frame_header, read_frame, write_frame, HeaderReader};
use async_lsp::Error;

fn protocol(input: &[u8]) -> String {
    match read_frame(input) {
        Err(Error::Protocol(text)) => text,
        _ => panic!("the input violates the protocol"),
    }
}

#[test]
fn written_frames_are_read_back() {
    for content in ["", "{}", "{\"x\":\"\u{e9}\u{1f600}\"}"] {
        let mut bytes = write_frame(content.as_bytes());
        let len = bytes.len();
        bytes.extend_from_slice(b"rest");
        let frame = read_frame(&bytes).unwrap();
        assert_eq!(frame.content, content.as_bytes());
        assert_eq!(frame.consumed, len);
    }
}

#[test]
fn a_stream_of_frames_is_read_one_by_one() {
    let contents: Vec<&[u8]> = vec![b"first", b"", b"third\r\n\r\n"];
    let mut stream = Vec::new();
    for content in &contents {
        stream.extend(write_frame(content));
    }
    let mut at = 0;
    for content in &contents {
        let frame = read_frame(&stream[at..]).unwrap();
        assert_eq!(&frame.content, content);
        at += frame.consumed;
    }
    assert_eq!(at, stream.len());
    assert!(matches!(read_frame(&stream[at..]), Err(Error::Eof)));
}

#[test]
fn header_of_a_frame() {
    assert_eq!(frame_header(0), "Content-Length: 0\r\n\r\n");
    assert_eq!(frame_header(1234), "Content-Length: 1234\r\n\r\n");
    assert_eq!(write_frame(b"ab"), b"Content-Length: 2\r\n\r\nab");
}

#[test]
fn names_of_fields_ignore_case_and_the_last_length_counts() {
    let input = b"content-LENGTH: 1\r\nContent-Type: x: y\r\nContent-Length: +02\r\n\r\nabc";
    let frame = read_frame(input).unwrap();
    assert_eq!(frame.content, b"ab");
    assert_eq!(frame.consumed, input.len() - 1);
}

#[test]
fn malformed_headers() {
    assert_eq!(protocol(b"Content-Length:2\r\n\r\nab"), "Invalid header: \"Content-Length:2\\r\\n\"");
    assert_eq!(protocol(b"Content-Length: 2\n\r\nab"), "Invalid header: \"Content-Length: 2\\n\"");
    assert_eq!(protocol(b"Content-Length: 2"), "Invalid header: \"Content-Length: 2\"");
    assert_eq!(protocol(b"\n"), "Invalid header: \"\\n\"");
    assert_eq!(protocol(b"Content-Length:  2\r\n\r\nab"), "Invalid content-length:  2");
    assert_eq!(protocol(b"Content-Length: -1\r\n\r\n"), "Invalid content-length: -1");
    assert_eq!(
        protocol(b"Content-Length: 99999999999999999999999\r\n\r\n"),
        "Invalid content-length: 99999999999999999999999"
    );
    assert_eq!(protocol(b"Content-Type: x\r\n\r\n"), "Missing content-length");
    assert_eq!(protocol(b"\r\n"), "Missing content-length");
}

#[test]
fn inputs_that_end_too_early() {
    assert!(matches!(read_frame(b""), Err(Error::Eof)));
    assert!(matches!(read_frame(b"Content-Length: 2\r\n"), Err(Error::Eof)));
    match read_frame(b"Content-Length: 3\r\n\r\nab") {
        Err(Error::Io(error)) => assert_eq!(error.kind(), std::io::ErrorKind::UnexpectedEof),
        _ => panic!("the content is not complete"),
    }
    match read_frame(b"Content-\xff: 3\r\n\r\nabc") {
        Err(Error::Io(error)) => {
            assert_eq!(error.kind(), std::io::ErrorKind::InvalidData);
            assert_eq!(error.to_string(), "stream did not contain valid UTF-8");
        }
        _ => panic!("the header is not UTF-8"),
    }
}

#[test]
fn headers_are_read_line_by_line() {
    let mut reader = HeaderReader::new();
    assert!(matches!(reader.feed("X: y\r\n"), Ok(None)));
    assert!(matches!(reader.feed("Content-Length: 17\r\n"), Ok(None)));
    assert!(matches!(reader.feed("\r\n"), Ok(Some(17))));
    assert!(matches!(reader.feed(""), Err(Error::Eof)));
}

#[test]
fn bytes_behind_any_frame_change_nothing() {
    let input = b"X: \xc3\xa9\r\ncontent-length: 2\r\nY: z\r\n\r\nab";
    let alone = read_frame(input).unwrap();
    for rest in ["c", "\r\n", "Content-Length: 9\r\n\r\n"] {
        let mut longer = input.to_vec();
        longer.extend_from_slice(rest.as_bytes());
        let frame = read_frame(&longer).unwrap();
        assert_eq!(frame.content, alone.content);
        assert_eq!(frame.consumed, alone.consumed);
    }
}
