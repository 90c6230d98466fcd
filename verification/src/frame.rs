//! Framing of messages: a header of `name: value` lines, an empty line, and the content.
use vstd::prelude::*;
use vstd::utf8::{decode_utf8, encode_utf8, is_ascii_chars, valid_utf8};

use crate::error::{Error, Result};
use crate::text::{chars_of, decimal, decimal_text, join, parse_usize, parsed_usize};

verus! {

/// The text that the [`Debug`] implementation of [`str`] writes.
pub uninterp spec fn debug_text(text: Seq<char>) -> Seq<char>;

/// The [`Debug`] implementation of [`str`], whose text is [`debug_text`].
#[verifier::external_body]
pub(crate) fn debug_str(text: &str) -> (shown: String)
    ensures
        shown@ == debug_text(text@),
{
    format!("{text:?}")
}

/// [`std::str::from_utf8`]: it succeeds on well-formed UTF-8, with the text that the bytes encode.
#[verifier::external_body]
fn text_of(bytes: &[u8]) -> (text: Option<&str>)
    ensures
        text is Some <==> valid_utf8(bytes@),
        text matches Some(text) ==> text@ == decode_utf8(bytes@),
{
    std::str::from_utf8(bytes).ok()
}

/// [`std::io::Error::new`] for a line that is not UTF-8. Nothing is claimed of the error.
#[verifier::external_body]
fn not_utf8_error() -> (error: std::io::Error) {
    std::io::Error::new(
        std::io::ErrorKind::InvalidData,
        "stream did not contain valid UTF-8",
    )
}

/// The error that [`std::io::ErrorKind::UnexpectedEof`] converts into. Nothing is claimed of it.
#[verifier::external_body]
fn unexpected_eof_error() -> (error: std::io::Error) {
    std::io::ErrorKind::UnexpectedEof.into()
}

/// `error` is the one that stands for a line that is not UTF-8.
pub closed spec fn says_not_utf8(error: std::io::Error) -> bool {
    call_ensures(not_utf8_error, (), error)
}

/// `error` is the one that stands for an input that ends too early.
pub closed spec fn says_unexpected_eof(error: std::io::Error) -> bool {
    call_ensures(unexpected_eof_error, (), error)
}

/// What one line of the header says.
pub enum HeaderLine {
    /// There is no line: the input has ended.
    Missing,
    /// The empty line behind the header.
    End,
    /// The length of the content.
    Length(usize),
    /// A length that is no number, with its text.
    BadLength(Seq<char>),
    /// A field that says nothing about the length.
    Other,
    /// No field at all.
    Malformed,
}

/// The position of the first `": "` in `text`, at `from` or behind it.
pub open spec fn separator(text: Seq<char>, from: int) -> Option<int>
    decreases text.len() - from,
{
    if from < 0 || from + 1 >= text.len() {
        None
    } else if text[from] == ':' && text[from + 1] == ' ' {
        Some(from)
    } else {
        separator(text, from + 1)
    }
}

/// An ASCII capital letter as a small one, and any other character as it is.
pub open spec fn ascii_lower(c: char) -> char {
    if 'A' <= c <= 'Z' {
        (c as u32 + 32) as char
    } else {
        c
    }
}

/// The two texts are the same but for the case of ASCII letters.
pub open spec fn same_but_case(a: Seq<char>, b: Seq<char>) -> bool {
    &&& a.len() == b.len()
    &&& forall|i: int| 0 <= i < a.len() ==> ascii_lower(#[trigger] a[i]) == ascii_lower(b[i])
}

/// The name of the header field that holds the length of the content.
pub open spec fn content_length() -> Seq<char> {
    "Content-Length"@
}

/// Reads one line, with the line feed that ends it. A field is a name and a value with `": "`
/// between them, and ends in `"\r\n"`; no other spaces are allowed around the colon.
pub open spec fn header_line(line: Seq<char>) -> HeaderLine {
    if line.len() == 0 {
        HeaderLine::Missing
    } else if line == "\r\n"@ {
        HeaderLine::End
    } else if !"\r\n"@.is_suffix_of(line) {
        HeaderLine::Malformed
    } else {
        let field = line.take(line.len() - 2);
        match separator(field, 0) {
            None => HeaderLine::Malformed,
            Some(i) => if same_but_case(field.take(i), content_length()) {
                match parsed_usize(field.skip(i + 2)) {
                    Some(length) => HeaderLine::Length(length),
                    None => HeaderLine::BadLength(field.skip(i + 2)),
                }
            } else {
                HeaderLine::Other
            },
        }
    }
}

/// What is wrong with an input.
pub enum Fault {
    /// It ends before the header does.
    Eof,
    /// A line of the header is no field.
    InvalidHeader(Seq<char>),
    /// The length of the content is no number.
    InvalidLength(Seq<char>),
    /// The header does not give the length of the content.
    MissingLength,
    /// A line of the header is not UTF-8.
    NotUtf8,
    /// It ends before the content does.
    Truncated,
}

impl Fault {
    /// `error` is how the fault is reported.
    pub open spec fn reported_as(self, error: Error) -> bool {
        match self {
            Fault::Eof => error is Eof,
            Fault::InvalidHeader(line) => error matches Error::Protocol(detail) && detail@
                == "Invalid header: "@ + debug_text(line),
            Fault::InvalidLength(value) => error matches Error::Protocol(detail) && detail@
                == "Invalid content-length: "@ + value,
            Fault::MissingLength => error matches Error::Protocol(detail) && detail@
                == "Missing content-length"@,
            Fault::NotUtf8 => error matches Error::Io(err) && says_not_utf8(err),
            Fault::Truncated => error matches Error::Io(err) && says_unexpected_eof(err),
        }
    }
}

/// Where the header stands after a line of it.
pub enum Header {
    /// It goes on, with this length so far.
    Open(Option<usize>),
    /// It is complete, with this length of the content.
    Complete(usize),
    /// It is refused.
    Refused(Fault),
}

/// The header after one more line, of one that gave `length` so far. A later length overrides an
/// earlier one.
pub open spec fn header_after(length: Option<usize>, line: Seq<char>) -> Header {
    match header_line(line) {
        HeaderLine::Missing => Header::Refused(Fault::Eof),
        HeaderLine::End => match length {
            Some(length) => Header::Complete(length),
            None => Header::Refused(Fault::MissingLength),
        },
        HeaderLine::Length(length) => Header::Open(Some(length)),
        HeaderLine::BadLength(value) => Header::Refused(Fault::InvalidLength(value)),
        HeaderLine::Other => Header::Open(length),
        HeaderLine::Malformed => Header::Refused(Fault::InvalidHeader(line)),
    }
}

/// Reads the header of a message line by line.
pub struct HeaderReader {
    length: Option<usize>,
}

impl View for HeaderReader {
    type V = Option<usize>;

    /// The length that the header gave so far.
    closed spec fn view(&self) -> Option<usize> {
        self.length
    }
}

impl HeaderReader {
    /// Starts at the first line of a header.
    pub fn new() -> (reader: Self)
        ensures
            reader@ is None,
    {
        HeaderReader { length: None }
    }

    /// Takes the next line, with the line feed that ends it; an empty one stands for the end of the
    /// input. Gives the length of the content once the header is complete.
    ///
    /// # Errors
    ///
    /// [`Error::Eof`] at the end of the input, and [`Error::Protocol`] for a line that is no field,
    /// a length that is no number, or a header without a length.
    pub fn feed(&mut self, line: &str) -> (complete: Result<Option<usize>>)
        ensures
            match header_after(old(self)@, line@) {
                Header::Open(length) => complete matches Ok(None) && final(self)@ == length,
                Header::Complete(length) => complete matches Ok(Some(found)) && found
                    == length && final(self)@ == old(self)@,
                Header::Refused(fault) => complete matches Err(error) && fault.reported_as(error)
                    && final(self)@ == old(self)@,
            },
    {
        let chars = chars_of(line);
        let n: usize = chars.len();
        proof {
            reveal_strlit("\r\n");
            reveal_strlit("Content-Length");
        }
        if n == 0 {
            return Err(Error::Eof);
        }
        if n == 2 && chars[0] == '\r' && chars[1] == '\n' {
            assert(line@ == "\r\n"@);
            return match self.length {
                Some(length) => Ok(Some(length)),
                None => Err(Error::Protocol("Missing content-length".to_owned())),
            };
        }
        assert(line@ != "\r\n"@);
        if n < 2 || chars[n - 2] != '\r' || chars[n - 1] != '\n' {
            assert(!"\r\n"@.is_suffix_of(line@)) by {
                if "\r\n"@.is_suffix_of(line@) {
                    let tail = line@.subrange(line@.len() - 2, line@.len() as int);
                    assert(tail == "\r\n"@);
                    assert(tail[0] == line@[line@.len() - 2]);
                    assert(tail[1] == line@[line@.len() - 1]);
                }
            }
            return Err(invalid_header(line));
        }
        assert("\r\n"@.is_suffix_of(line@)) by {
            assert(line@.subrange(line@.len() - 2, line@.len() as int) == "\r\n"@);
        }
        let mut field = chars;
        field.truncate(n - 2);
        assert(field@ == line@.take(line@.len() - 2));
        let at = match find_separator(&field) {
            Some(at) => at,
            None => {
                return Err(invalid_header(line));
            },
        };
        if !prefix_is_but_case(&field, at, "Content-Length") {
            return Ok(None);
        }
        match parse_usize(&field, at + 2) {
            Some(length) => {
                self.length = Some(length);
                Ok(None)
            },
            None => {
                let value = line.substring_char(at + 2, n - 2);
                assert(value@ == field@.skip(at + 2));
                Err(Error::Protocol(join("Invalid content-length: ", value)))
            },
        }
    }
}

/// The error for a line that is no field.
fn invalid_header(line: &str) -> (error: Error)
    ensures
        Fault::InvalidHeader(line@).reported_as(error),
{
    Error::Protocol(join("Invalid header: ", debug_str(line).as_str()))
}

/// Finds the first `": "`.
fn find_separator(field: &Vec<char>) -> (at: Option<usize>)
    ensures
        match at {
            Some(at) => separator(field@, 0) == Some(at as int) && at + 2 <= field@.len(),
            None => separator(field@, 0) is None,
        },
{
    let mut i: usize = 0;
    while i < field.len() && i + 1 < field.len()
        invariant
            i <= field@.len(),
            separator(field@, 0) == separator(field@, i as int),
        decreases field@.len() - i,
    {
        if field[i] == ':' && field[i + 1] == ' ' {
            return Some(i);
        }
        i = i + 1;
    }
    None
}

/// An ASCII capital letter as a small one.
fn lower(c: char) -> (lowered: char)
    ensures
        lowered == ascii_lower(c),
{
    if 'A' <= c && c <= 'Z' {
        ((c as u8) + 32) as char
    } else {
        c
    }
}

/// Whether `field[..end]` is `name` but for the case of ASCII letters.
fn prefix_is_but_case(field: &Vec<char>, end: usize, name: &str) -> (same: bool)
    requires
        end <= field@.len(),
    ensures
        same == same_but_case(field@.take(end as int), name@),
{
    let expected = chars_of(name);
    if end != expected.len() {
        return false;
    }
    let mut i: usize = 0;
    while i < end
        invariant
            i <= end <= field@.len(),
            expected@ == name@,
            end == expected@.len(),
            forall|j: int|
                0 <= j < i ==> ascii_lower(#[trigger] field@.take(end as int)[j]) == ascii_lower(
                    name@[j],
                ),
        decreases end - i,
    {
        if lower(field[i]) != lower(expected[i]) {
            assert(field@.take(end as int)[i as int] == field@[i as int]);
            return false;
        }
        i = i + 1;
    }
    true
}

/// The number of bytes in the first line of `input`, with the line feed that ends it, or in all of
/// `input` where no line feed does.
pub open spec fn line_len(input: Seq<u8>) -> nat
    decreases input.len(),
{
    if input.len() == 0 {
        0
    } else if input[0] == 10u8 {
        1
    } else {
        1 + line_len(input.skip(1))
    }
}

/// What reading a message finds in an input.
pub enum Found {
    /// The content of a message, behind a header of `start` bytes.
    Content { start: int, len: usize },
    /// No message.
    Nothing(Fault),
}

impl Found {
    /// The same, in an input with `n` more bytes in front.
    pub open spec fn behind(self, n: nat) -> Found {
        match self {
            Found::Content { start, len } => Found::Content { start: start + n, len },
            Found::Nothing(fault) => Found::Nothing(fault),
        }
    }
}

/// A line has no more bytes than the input it is in, and at least one unless that is empty.
proof fn lemma_line_len(input: Seq<u8>)
    ensures
        line_len(input) <= input.len(),
        input.len() > 0 ==> line_len(input) > 0,
    decreases input.len(),
{
    if input.len() > 0 && input[0] != 10u8 {
        lemma_line_len(input.skip(1));
    }
}

/// What reading a message finds in `input`, where the lines of the header before it gave `length`.
pub open spec fn found_in(input: Seq<u8>, length: Option<usize>) -> Found
    decreases input.len(),
{
    let n = line_len(input);
    if !valid_utf8(input.take(n as int)) {
        Found::Nothing(Fault::NotUtf8)
    } else {
        match header_after(length, decode_utf8(input.take(n as int))) {
            Header::Open(length) => if 0 < n <= input.len() {
                found_in(input.skip(n as int), length).behind(n)
            } else {
                Found::Nothing(Fault::Eof)
            },
            Header::Complete(len) => if n + len <= input.len() {
                Found::Content { start: n as int, len }
            } else {
                Found::Nothing(Fault::Truncated)
            },
            Header::Refused(fault) => Found::Nothing(fault),
        }
    }
}

/// The content of a message, and how much of the input the message took.
pub struct Frame {
    /// The content.
    pub content: Vec<u8>,
    /// The bytes of the header and the content.
    pub consumed: usize,
}

/// The position behind the first line of `input[from..]`.
fn line_end(input: &[u8], from: usize) -> (end: usize)
    requires
        from <= input@.len(),
    ensures
        end == from + line_len(input@.skip(from as int)),
        from <= end <= input@.len(),
{
    let mut i: usize = from;
    while i < input.len()
        invariant
            from <= i <= input@.len(),
            from + line_len(input@.skip(from as int)) == i + line_len(input@.skip(i as int)),
        decreases input@.len() - i,
    {
        assert(input@.skip(i as int)[0] == input@[i as int]);
        assert(input@.skip(i as int).skip(1) == input@.skip(i + 1));
        if input[i] == 10 {
            return i + 1;
        }
        i = i + 1;
    }
    i
}

/// Reads one message from the front of `input`, which holds all that is left of a channel.
///
/// # Errors
///
/// The errors of [`HeaderReader::feed`], and [`Error::Io`] where a line of the header is not UTF-8
/// or `input` ends before the content does.
pub fn read_frame(input: &[u8]) -> (frame: Result<Frame>)
    ensures
        match found_in(input@, None) {
            Found::Content { start, len } => {
                &&& 0 <= start
                &&& start + len <= input@.len()
                &&& frame matches Ok(frame)
                &&& frame.content@ == input@.subrange(start, start + len)
                &&& frame.consumed == start + len
            },
            Found::Nothing(fault) => frame matches Err(error) && fault.reported_as(error),
        },
{
    let mut reader = HeaderReader::new();
    let mut at: usize = 0;
    assert(input@.skip(0) == input@);
    loop
        invariant
            at <= input@.len(),
            found_in(input@, None) == found_in(input@.skip(at as int), reader@).behind(at as nat),
        decreases input@.len() - at,
    {
        let ghost rest = input@.skip(at as int);
        let end: usize = line_end(input, at);
        let line = vstd::slice::slice_subrange(input, at, end);
        assert(line@ == rest.take(line_len(rest) as int));
        let text = match text_of(line) {
            Some(text) => text,
            None => {
                let fail = not_utf8_error;
                return Err(Error::Io(fail()));
            },
        };
        match reader.feed(text) {
            Ok(None) => {
                proof {
                    lemma_line_len(rest);
                    lemma_open_line(rest);
                    assert(rest.skip(line_len(rest) as int) == input@.skip(end as int));
                }
                at = end;
            },
            Ok(Some(len)) => {
                if len > input.len() - end {
                    let fail = unexpected_eof_error;
                    return Err(Error::Io(fail()));
                }
                let content = vstd::slice::slice_subrange(input, end, end + len);
                return Ok(
                    Frame { content: vstd::slice::slice_to_vec(content), consumed: end + len },
                );
            },
            Err(error) => {
                return Err(error);
            },
        }
    }
}

/// A line that a header goes on behind is not empty.
proof fn lemma_open_line(input: Seq<u8>)
    ensures
        valid_utf8(input.take(line_len(input) as int)) && input.len() == 0 ==> header_line(
            decode_utf8(input.take(line_len(input) as int)),
        ) is Missing,
{
    if input.len() == 0 {
        assert(input.take(0) == Seq::<u8>::empty());
        assert(decode_utf8(Seq::<u8>::empty()) == Seq::<char>::empty());
    }
}

/// The header of a message whose content has `len` bytes.
pub open spec fn header_text(len: nat) -> Seq<char> {
    "Content-Length"@ + ": "@ + decimal(len) + "\r\n\r\n"@
}

/// A whole message with this content.
pub open spec fn frame_bytes(content: Seq<u8>) -> Seq<u8> {
    encode_utf8(header_text(content.len())) + content
}

/// Writes the header of a message whose content has `len` bytes.
pub fn frame_header(len: usize) -> (header: String)
    ensures
        header@ == header_text(len as nat),
{
    let mut header = join("Content-Length", ": ");
    header.append(decimal_text(len as u64).as_str());
    header.append("\r\n\r\n");
    header
}

/// Writes a whole message.
pub fn write_frame(content: &[u8]) -> (bytes: Vec<u8>)
    ensures
        bytes@ == frame_bytes(content@),
{
    let header = frame_header(content.len());
    let mut bytes = vstd::slice::slice_to_vec(header.as_str().as_bytes());
    bytes.extend_from_slice(content);
    bytes
}

/// The first line ends at the first line feed.
proof fn lemma_line_len_at(input: Seq<u8>, k: int)
    requires
        0 <= k < input.len(),
        input[k] == 10u8,
        forall|j: int| 0 <= j < k ==> input[j] != 10u8,
    ensures
        line_len(input) == k + 1,
    decreases k,
{
    if k > 0 {
        lemma_line_len_at(input.skip(1), k - 1);
    }
}

/// A line of ASCII text at the front of an input is read as that text.
proof fn lemma_ascii_line(line: Seq<char>, rest: Seq<u8>)
    requires
        line.len() > 0,
        line.last() == '\n',
        forall|i: int| 0 <= i < line.len() - 1 ==> line[i] != '\n',
        is_ascii_chars(line),
    ensures
        encode_utf8(line).len() == line.len(),
        line_len(encode_utf8(line) + rest) == line.len(),
        (encode_utf8(line) + rest).take(line.len() as int) == encode_utf8(line),
        (encode_utf8(line) + rest).skip(line.len() as int) == rest,
        valid_utf8(encode_utf8(line)),
        decode_utf8(encode_utf8(line)) == line,
{
    broadcast use {vstd::utf8::encode_utf8_decode_utf8, vstd::utf8::encode_utf8_valid_utf8};

    vstd::utf8::is_ascii_chars_encode_utf8(line);
    let input = encode_utf8(line) + rest;
    assert(input[line.len() - 1] == 10u8);
    assert forall|j: int| 0 <= j < line.len() - 1 implies input[j] != 10u8 by {
        assert(line[j] != '\n');
        assert('\0' <= line[j] <= '\u{7f}');
        assert(input[j] == line[j] as u8);
    }
    lemma_line_len_at(input, line.len() - 1);
}

/// The line that gives the length is read as that length.
proof fn lemma_length_line(len: usize)
    ensures
        ({
            let line = "Content-Length"@ + ": "@ + decimal(len as nat) + "\r\n"@;
            &&& line.last() == '\n'
            &&& forall|i: int| 0 <= i < line.len() - 1 ==> line[i] != '\n'
            &&& is_ascii_chars(line)
            &&& header_line(line) == HeaderLine::Length(len)
        }),
{
    reveal_strlit("Content-Length");
    reveal_strlit(": ");
    reveal_strlit("\r\n");
    let digits = decimal(len as nat);
    crate::text::lemma_decimal_digits(len as nat);
    crate::text::lemma_parse_decimal(len);
    let line = "Content-Length"@ + ": "@ + digits + "\r\n"@;
    let p = |c: char| crate::text::is_digit(c);
    assert forall|i: int| 16 <= i < 16 + digits.len() implies crate::text::is_digit(
        #[trigger] line[i],
    ) by {
        assert(p(digits[i - 16]));
        assert(line[i] == digits[i - 16]);
    }
    assert(line.subrange(line.len() - 2, line.len() as int) == "\r\n"@);
    assert("\r\n"@.is_suffix_of(line));
    let field = line.take(line.len() - 2);
    assert(field[14] == ':' && field[15] == ' ');
    reveal_with_fuel(separator, 16);
    assert(separator(field, 0) == Some(14int));
    assert(field.take(14) == "Content-Length"@);
    assert(field.skip(16) == digits);
}

/// Reading gives back what was written: behind the header of a written message the whole content
/// is found, whatever follows it on the channel.
pub proof fn law_read_written(content: Seq<u8>, rest: Seq<u8>)
    requires
        content.len() <= usize::MAX,
    ensures
        ({
            let header = encode_utf8(header_text(content.len()));
            let input = frame_bytes(content) + rest;
            &&& found_in(input, None) == Found::Content {
                start: header.len() as int,
                len: content.len() as usize,
            }
            &&& input.subrange(header.len() as int, (header.len() + content.len()) as int) == content
            &&& input.skip(frame_bytes(content).len() as int) == rest
        }),
{
    let len = content.len() as usize;
    let first = "Content-Length"@ + ": "@ + decimal(content.len()) + "\r\n"@;
    let second = "\r\n"@;
    reveal_strlit("\r\n");
    reveal_strlit("\r\n\r\n");
    lemma_length_line(len);
    assert(header_text(content.len()) == first + second);
    vstd::utf8::is_ascii_chars_encode_utf8(first);
    vstd::utf8::is_ascii_chars_encode_utf8(second);
    vstd::utf8::is_ascii_chars_encode_utf8(first + second);
    assert(encode_utf8(first + second) == encode_utf8(first) + encode_utf8(second));
    let tail = content + rest;
    let after_first = encode_utf8(second) + tail;
    let input = frame_bytes(content) + rest;
    assert(input == encode_utf8(first) + after_first);
    lemma_ascii_line(first, after_first);
    lemma_ascii_line(second, tail);
    assert(header_line(second) is End);
    assert(found_in(after_first, Some(len)) == Found::Content { start: 2, len });
    assert(found_in(input, None) == found_in(after_first, Some(len)).behind(first.len()));
    let header = encode_utf8(header_text(content.len()));
    assert(input.subrange(header.len() as int, (header.len() + content.len()) as int) == content);
    assert(input.skip(frame_bytes(content).len() as int) == rest);
}

/// A text that ends in a line feed is encoded as bytes that do.
proof fn lemma_ends_in_line_feed(text: Seq<char>)
    requires
        text.len() > 0,
        text.last() == '\n',
    ensures
        encode_utf8(text).len() > 0,
        encode_utf8(text).last() == 10u8,
    decreases text.len(),
{
    vstd::utf8::encode_utf8_first_scalar(text);
    if text.len() > 1 {
        lemma_ends_in_line_feed(text.drop_first());
    } else {
        vstd::utf8::is_ascii_chars_encode_utf8(text);
    }
}

/// A line that a line feed ends is the first line whatever follows it.
proof fn lemma_line_goes_no_further(input: Seq<u8>, rest: Seq<u8>)
    requires
        0 < line_len(input) <= input.len(),
        input[line_len(input) - 1] == 10u8,
    ensures
        line_len(input + rest) == line_len(input),
    decreases input.len(),
{
    if input[0] != 10u8 {
        assert((input + rest).skip(1) == input.skip(1) + rest);
        lemma_line_goes_no_further(input.skip(1), rest);
    }
}

/// What follows a line of the header that the header goes on or ends with does not change it.
proof fn lemma_header_line_stays(input: Seq<u8>, rest: Seq<u8>, length: Option<usize>)
    requires
        valid_utf8(input.take(line_len(input) as int)),
        !(header_after(length, decode_utf8(input.take(line_len(input) as int))) is Refused),
    ensures
        0 < line_len(input) <= input.len(),
        line_len(input + rest) == line_len(input),
        (input + rest).take(line_len(input) as int) == input.take(line_len(input) as int),
        (input + rest).skip(line_len(input) as int) == input.skip(line_len(input) as int) + rest,
{
    let n = line_len(input);
    let bytes = input.take(n as int);
    let text = decode_utf8(bytes);
    reveal_strlit("\r\n");
    lemma_line_len(input);
    vstd::utf8::decode_utf8_encode_utf8(bytes);
    if text != "\r\n"@ {
        let tail = text.subrange(text.len() - 2, text.len() as int);
        assert(tail == "\r\n"@);
        assert(tail[1] == text.last());
    }
    lemma_ends_in_line_feed(text);
    assert(input[n - 1] == bytes.last());
    lemma_line_goes_no_further(input, rest);
}

/// Bytes behind a message change nothing: where a message is found in an input, the same one is
/// found in it with anything behind.
pub proof fn law_rest_changes_nothing(input: Seq<u8>, rest: Seq<u8>, length: Option<usize>)
    requires
        found_in(input, length) is Content,
    ensures
        found_in(input + rest, length) == found_in(input, length),
        found_in(input, length) matches Found::Content { start, len } ==> {
            &&& 0 < start
            &&& start + len <= input.len()
            &&& (input + rest).subrange(start, start + len) == input.subrange(start, start + len)
        },
    decreases input.len(),
{
    let n = line_len(input);
    lemma_header_line_stays(input, rest, length);
    if let Header::Open(length) = header_after(length, decode_utf8(input.take(n as int))) {
        law_rest_changes_nothing(input.skip(n as int), rest, length);
    }
    if let Found::Content { start, len } = found_in(input, length) {
        assert((input + rest).subrange(start, start + len) == input.subrange(start, start + len));
    }
}

/// Feeding the lines of an input to a [`HeaderReader`] one by one leads to what is found in it: a
/// line that the header goes on behind leaves what is found behind the line, and the line that
/// completes it is followed by the content.
pub proof fn law_lines_lead_to_the_content(input: Seq<u8>, length: Option<usize>)
    requires
        valid_utf8(input.take(line_len(input) as int)),
    ensures
        ({
            let n = line_len(input);
            match header_after(length, decode_utf8(input.take(n as int))) {
                Header::Open(more) => found_in(input, length) == found_in(
                    input.skip(n as int),
                    more,
                ).behind(n),
                Header::Complete(len) => found_in(input, length) == if n + len <= input.len() {
                    Found::Content { start: n as int, len }
                } else {
                    Found::Nothing(Fault::Truncated)
                },
                Header::Refused(fault) => found_in(input, length) == Found::Nothing(fault),
            }
        }),
{
    if !(header_after(length, decode_utf8(input.take(line_len(input) as int))) is Refused) {
        lemma_header_line_stays(input, Seq::empty(), length);
    }
}

/// The bytes of messages that are written one after another.
pub open spec fn stream_bytes(contents: Seq<Seq<u8>>) -> Seq<u8>
    decreases contents.len(),
{
    if contents.len() == 0 {
        Seq::empty()
    } else {
        frame_bytes(contents[0]) + stream_bytes(contents.skip(1))
    }
}

/// The contents of all messages that are read from `input` one after another, and what stops the
/// reading.
pub open spec fn contents_of(input: Seq<u8>) -> (Seq<Seq<u8>>, Fault)
    decreases input.len(),
{
    match found_in(input, None) {
        Found::Content { start, len } => if 0 < start && start + len <= input.len() {
            let (more, fault) = contents_of(input.skip(start + len));
            (seq![input.subrange(start, start + len)] + more, fault)
        } else {
            (Seq::empty(), Fault::Truncated)
        },
        Found::Nothing(fault) => (Seq::empty(), fault),
    }
}

/// Messages that are written one after another are read back one by one and in order, and then the
/// end of the channel is found.
pub proof fn law_read_stream(contents: Seq<Seq<u8>>)
    requires
        forall|i: int| 0 <= i < contents.len() ==> (#[trigger] contents[i]).len() <= usize::MAX,
    ensures
        contents_of(stream_bytes(contents)) == (contents, Fault::Eof),
    decreases contents.len(),
{
    let input = stream_bytes(contents);
    if contents.len() == 0 {
        lemma_open_line(input);
        assert(input.take(0) == Seq::<u8>::empty());
        assert(contents =~= Seq::<Seq<u8>>::empty());
    } else {
        let rest = stream_bytes(contents.skip(1));
        law_read_written(contents[0], rest);
        law_read_stream(contents.skip(1));
        let header = encode_utf8(header_text(contents[0].len()));
        reveal_strlit("\r\n\r\n");
        lemma_length_line(contents[0].len() as usize);
        assert(header.len() > 0) by {
            let text = header_text(contents[0].len());
            assert(text.len() > 0);
            vstd::utf8::encode_utf8_first_scalar(text);
        }
        assert(contents == seq![contents[0]] + contents.skip(1));
    }
}

} // verus!
