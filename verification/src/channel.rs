//! What reading and writing messages on a channel keeps to.
use vstd::prelude::*;
use vstd::utf8::{
    decode_utf8, encode_scalar, encode_utf8, has_width_1_encoding, is_scalar, valid_utf8,
};

use crate::error::{Error, Result};
use crate::frame::{
    ascii_lower, debug_text, found_in, frame_header, header_after, header_line,
    law_read_written, law_rest_changes_nothing, line_len, read_frame, same_but_case,
    says_not_utf8, says_unexpected_eof, separator, write_frame, Frame, Header, HeaderLine,
    HeaderReader,
};
use crate::text::{decimal, parsed_usize};

verus! {

/// One field of a header.
pub struct Field {
    /// Its name.
    pub name: Seq<char>,
    /// Its value.
    pub value: Seq<char>,
}

impl Field {
    /// The line that the field is written on.
    pub open spec fn line(self) -> Seq<char> {
        self.name + ": "@ + self.value + "\r\n"@
    }

    /// The field can be told apart from what stands around it: there is no line feed in it, and no
    /// `": "` in its name.
    pub open spec fn well_formed(self) -> bool {
        &&& !self.name.contains('\n')
        &&& !self.value.contains('\n')
        &&& forall|i: int|
            0 <= i < self.name.len() - 1 ==> !(#[trigger] self.name[i] == ':' && self.name[i + 1]
                == ' ')
    }

    /// The field tells the length of the content. The case of its name does not matter.
    pub open spec fn tells_length(self) -> bool {
        &&& self.name.len() == "content-length"@.len()
        &&& forall|i: int|
            0 <= i < self.name.len() ==> (#[trigger] self.name[i] == "content-length"@[i]
                || self.name[i] == "CONTENT-LENGTH"@[i])
    }
}

/// The lines of these fields.
pub open spec fn lines(fields: Seq<Field>) -> Seq<char>
    decreases fields.len(),
{
    if fields.len() == 0 {
        Seq::empty()
    } else {
        fields[0].line() + lines(fields.skip(1))
    }
}

/// The fields can be told apart, and each of them that tells a length tells a number.
pub open spec fn readable(fields: Seq<Field>) -> bool {
    forall|i: int|
        0 <= i < fields.len() ==> (#[trigger] fields[i]).well_formed() && (
        fields[i].tells_length() ==> parsed_usize(fields[i].value) is Some)
}

/// No byte of a character but the line feed is that of a line feed.
proof fn lemma_scalar_without_line_feed(c: u32)
    requires
        is_scalar(c),
        c != 10,
    ensures
        !encode_scalar(c).contains(10u8),
{
    if has_width_1_encoding(c) {
        assert(vstd::utf8::leading_byte_width_1(c) != 10u8) by (bit_vector)
            requires
                c != 10,
                c <= 0x7f,
        ;
    } else {
        assert(vstd::utf8::leading_byte_width_2(c) != 10u8) by (bit_vector);
        assert(vstd::utf8::leading_byte_width_3(c) != 10u8) by (bit_vector);
        assert(vstd::utf8::leading_byte_width_4(c) != 10u8) by (bit_vector);
        assert(vstd::utf8::last_continuation_byte(c) != 10u8) by (bit_vector);
        assert(vstd::utf8::second_last_continuation_byte(c) != 10u8) by (bit_vector);
        assert(vstd::utf8::third_last_continuation_byte(c) != 10u8) by (bit_vector);
    }
}

/// Texts are encoded one after another.
proof fn lemma_encode_concat(a: Seq<char>, b: Seq<char>)
    ensures
        encode_utf8(a + b) == encode_utf8(a) + encode_utf8(b),
    decreases a.len(),
{
    if a.len() == 0 {
        assert(a + b =~= b);
        assert(encode_utf8(a) + encode_utf8(b) =~= encode_utf8(b));
    } else {
        assert((a + b).drop_first() =~= a.drop_first() + b);
        lemma_encode_concat(a.drop_first(), b);
        assert(encode_utf8(a + b) =~= encode_utf8(a) + encode_utf8(b));
    }
}

/// A text without a line feed is encoded as bytes without one.
proof fn lemma_encode_without_line_feed(text: Seq<char>)
    requires
        !text.contains('\n'),
    ensures
        !encode_utf8(text).contains(10u8),
    decreases text.len(),
{
    if text.len() > 0 {
        let c = text[0];
        vstd::utf8::char_is_scalar(c);
        vstd::utf8::char_u32_cast(c, c as u32);
        assert(text.contains(text[0]));
        assert(!text.drop_first().contains('\n')) by {
            if text.drop_first().contains('\n') {
                let i = choose|i: int|
                    0 <= i < text.drop_first().len() && text.drop_first()[i] == '\n';
                assert(text[i + 1] == '\n');
            }
        }
        assert(c != '\n');
        assert(c as u32 != 10);
        lemma_scalar_without_line_feed(text[0] as u32);
        lemma_encode_without_line_feed(text.drop_first());
        let bytes = encode_utf8(text);
        let first = encode_scalar(text[0] as u32);
        assert forall|i: int| 0 <= i < bytes.len() implies bytes[i] != 10u8 by {
            if i < first.len() {
                assert(first.contains(first[i]));
            } else {
                let more = encode_utf8(text.drop_first());
                assert(more.contains(more[i - first.len()]));
            }
        }
    }
}

/// The first line ends at the first line feed, or else at the end.
proof fn lemma_line_len_of(front: Seq<u8>, rest: Seq<u8>)
    requires
        !front.contains(10u8),
    ensures
        line_len(front + seq![10u8] + rest) == front.len() + 1,
        line_len(front) == front.len(),
    decreases front.len(),
{
    let input = front + seq![10u8] + rest;
    if front.len() > 0 {
        assert(front.contains(front[0]));
        assert(!front.skip(1).contains(10u8)) by {
            if front.skip(1).contains(10u8) {
                let i = choose|i: int| 0 <= i < front.skip(1).len() && front.skip(1)[i] == 10u8;
                assert(front[i + 1] == 10u8);
            }
        }
        assert(input.skip(1) =~= front.skip(1) + seq![10u8] + rest);
        lemma_line_len_of(front.skip(1), rest);
    }
}

/// A line at the front of an input is read as its text.
proof fn lemma_line(text: Seq<char>, rest: Seq<u8>)
    requires
        !text.contains('\n'),
    ensures
        ({
            let line = text + "\n"@;
            let bytes = encode_utf8(line);
            let input = bytes + rest;
            &&& line_len(input) == bytes.len()
            &&& bytes.len() > 0
            &&& input.take(bytes.len() as int) == bytes
            &&& input.skip(bytes.len() as int) == rest
            &&& valid_utf8(bytes)
            &&& decode_utf8(bytes) == line
        }),
{
    broadcast use {vstd::utf8::encode_utf8_decode_utf8, vstd::utf8::encode_utf8_valid_utf8};

    reveal_strlit("\n");
    let line = text + "\n"@;
    lemma_encode_concat(text, "\n"@);
    vstd::utf8::is_ascii_chars_encode_utf8("\n"@);
    assert(encode_utf8("\n"@) =~= seq![10u8]);
    lemma_encode_without_line_feed(text);
    lemma_line_len_of(encode_utf8(text), rest);
    let bytes = encode_utf8(line);
    assert(bytes + rest =~= encode_utf8(text) + seq![10u8] + rest);
    assert((bytes + rest).take(bytes.len() as int) =~= bytes);
    assert((bytes + rest).skip(bytes.len() as int) =~= rest);
}

/// The first `": "` stands where the name ends.
proof fn lemma_separator(name: Seq<char>, value: Seq<char>, from: int)
    requires
        0 <= from <= name.len(),
        forall|i: int|
            0 <= i < name.len() - 1 ==> !(#[trigger] name[i] == ':' && name[i + 1] == ' '),
    ensures
        separator(name + ": "@ + value, from) == Some(name.len() as int),
    decreases name.len() - from,
{
    reveal_strlit(": ");
    let text = name + ": "@ + value;
    assert(text[name.len() as int] == ':' && text[name.len() as int + 1] == ' ');
    if from < name.len() {
        assert(text[from] == name[from]);
        if from < name.len() - 1 {
            assert(text[from + 1] == name[from + 1]);
        }
        lemma_separator(name, value, from + 1);
    }
}

/// Without `": "` no field is found.
proof fn lemma_no_separator(text: Seq<char>, from: int)
    requires
        0 <= from,
        forall|i: int|
            0 <= i < text.len() - 1 ==> !(#[trigger] text[i] == ':' && text[i + 1] == ' '),
    ensures
        separator(text, from) is None,
    decreases text.len() - from,
{
    if from + 1 < text.len() {
        lemma_no_separator(text, from + 1);
    }
}

/// A character is a letter in either case exactly where it is the same but for its case.
proof fn lemma_name(name: Seq<char>)
    ensures
        same_but_case(name, "Content-Length"@) <==> (Field {
            name,
            value: Seq::empty(),
        }).tells_length(),
{
    reveal_strlit("Content-Length");
    reveal_strlit("content-length");
    reveal_strlit("CONTENT-LENGTH");
    if name.len() == 14 {
        assert forall|i: int| 0 <= i < 14 implies (ascii_lower(#[trigger] name[i])
            == ascii_lower("Content-Length"@[i]) <==> (name[i] == "content-length"@[i]
            || name[i] == "CONTENT-LENGTH"@[i])) by {
            assert(i == 0 || i == 1 || i == 2 || i == 3 || i == 4 || i == 5 || i == 6 || i == 7
                || i == 8 || i == 9 || i == 10 || i == 11 || i == 12 || i == 13);
        }
    }
}

/// What the line of a field says.
proof fn lemma_field_line(field: Field)
    requires
        field.well_formed(),
    ensures
        header_line(field.line()) == if field.tells_length() {
            match parsed_usize(field.value) {
                Some(length) => HeaderLine::Length(length),
                None => HeaderLine::BadLength(field.value),
            }
        } else {
            HeaderLine::Other
        },
        field.line().len() >= 4,
        field.line() == (field.name + ": "@ + field.value + "\r"@) + "\n"@,
        !(field.name + ": "@ + field.value + "\r"@).contains('\n'),
{
    reveal_strlit("\r\n");
    reveal_strlit("\r");
    reveal_strlit("\n");
    reveal_strlit(": ");
    let line = field.line();
    let text = field.name + ": "@ + field.value;
    assert(line =~= text + "\r\n"@);
    assert(line.subrange(line.len() - 2, line.len() as int) =~= "\r\n"@);
    assert("\r\n"@.is_suffix_of(line));
    assert(line != "\r\n"@);
    assert(line.take(line.len() - 2) =~= text);
    lemma_separator(field.name, field.value, 0);
    assert(text.take(field.name.len() as int) =~= field.name);
    assert(text.skip(field.name.len() as int + 2) =~= field.value);
    lemma_name(field.name);
    assert(field.tells_length() == (Field {
        name: field.name,
        value: Seq::empty(),
    }).tells_length());
    let front = text + "\r"@;
    assert(line =~= front + "\n"@);
    assert forall|i: int| 0 <= i < front.len() implies front[i] != '\n' by {
        if i < field.name.len() {
            assert(field.name.contains(front[i]));
        } else if i >= field.name.len() + 2 && i < text.len() {
            assert(front[i] == field.value[i - field.name.len() - 2]);
            assert(field.value.contains(front[i]));
        }
    }
}

/// The length that is known after these fields, where `before` was known before them.
pub open spec fn length_after(fields: Seq<Field>, before: Option<usize>) -> Option<usize>
    decreases fields.len(),
{
    if fields.len() == 0 {
        before
    } else {
        length_after(
            fields.skip(1),
            if fields[0].tells_length() {
                parsed_usize(fields[0].value)
            } else {
                before
            },
        )
    }
}

/// Behind the lines of readable fields, reading goes on with the length that they told.
proof fn lemma_fields(fields: Seq<Field>, rest: Seq<u8>, before: Option<usize>)
    requires
        readable(fields),
    ensures
        found_in(encode_utf8(lines(fields)) + rest, before) == found_in(
            rest,
            length_after(fields, before),
        ).behind(encode_utf8(lines(fields)).len()),
    decreases fields.len(),
{
    if fields.len() == 0 {
        assert(encode_utf8(lines(fields)) + rest =~= rest);
    } else {
        let more = fields.skip(1);
        let field = fields[0];
        let tail = encode_utf8(lines(more)) + rest;
        let told = if field.tells_length() {
            parsed_usize(field.value)
        } else {
            before
        };
        lemma_field_line(field);
        lemma_encode_concat(field.line(), lines(more));
        lemma_line(field.name + ": "@ + field.value + "\r"@, tail);
        assert forall|i: int| 0 <= i < more.len() implies (#[trigger] more[i]).well_formed() && (
        more[i].tells_length() ==> parsed_usize(more[i].value) is Some) by {
            assert(more[i] == fields[i + 1]);
        }
        lemma_fields(more, rest, told);
        assert(encode_utf8(lines(fields)) + rest =~= encode_utf8(field.line()) + tail);
        assert(header_after(before, field.line()) == Header::Open(told));
    }
}

/// The length is that of the last field that tells one.
proof fn lemma_length_after(fields: Seq<Field>, before: Option<usize>, at: int)
    requires
        -1 <= at < fields.len(),
        at >= 0 ==> fields[at].tells_length(),
        forall|i: int| at < i < fields.len() ==> !(#[trigger] fields[i]).tells_length(),
    ensures
        length_after(fields, before) == if at >= 0 {
            parsed_usize(fields[at].value)
        } else {
            before
        },
    decreases fields.len(),
{
    if fields.len() > 0 {
        let more = fields.skip(1);
        let told = if fields[0].tells_length() {
            parsed_usize(fields[0].value)
        } else {
            before
        };
        assert forall|i: int| at - 1 < i < more.len() && i >= 0 implies !(
        #[trigger] more[i]).tells_length() by {
            assert(more[i] == fields[i + 1]);
        }
        if at > 0 {
            assert(more[at - 1] == fields[at]);
            lemma_length_after(more, told, at - 1);
        } else {
            lemma_length_after(more, told, -1);
        }
    }
}

/// The fields of a header may come in any order, with any others among them: behind an empty line,
/// the content is found whose length the last field tells that tells one. Other fields change
/// nothing, whatever their names and values, and neither does what follows the content.
pub proof fn law_fields_in_any_order(
    fields: Seq<Field>,
    at: int,
    content: Seq<u8>,
    rest: Seq<u8>,
    input: &[u8],
    frame: Result<Frame>,
)
    requires
        readable(fields),
        0 <= at < fields.len(),
        fields[at].tells_length(),
        parsed_usize(fields[at].value) matches Some(length) && length == content.len(),
        forall|i: int| at < i < fields.len() ==> !(#[trigger] fields[i]).tells_length(),
        input@ == encode_utf8(lines(fields) + "\r\n"@) + content + rest,
        call_ensures(read_frame, (input,), frame),
    ensures
        frame matches Ok(frame) && {
            &&& frame.content@ == content
            &&& frame.consumed == input@.len() - rest.len()
        },
{
    reveal_strlit("\r\n");
    reveal_strlit("\n");
    reveal_strlit("\r");
    let tail = encode_utf8("\r\n"@) + (content + rest);
    lemma_encode_concat(lines(fields), "\r\n"@);
    assert(input@ =~= encode_utf8(lines(fields)) + tail);
    lemma_fields(fields, tail, None);
    lemma_length_after(fields, None, at);
    assert("\r\n"@ =~= "\r"@ + "\n"@);
    lemma_line("\r"@, content + rest);
    let start = encode_utf8(lines(fields) + "\r\n"@).len() as int;
    assert(input@.subrange(start, start + content.len()) =~= content);
}

/// A header without a field that tells the length is refused.
pub proof fn law_length_is_mandatory(
    fields: Seq<Field>,
    rest: Seq<u8>,
    input: &[u8],
    frame: Result<Frame>,
)
    requires
        readable(fields),
        forall|i: int| 0 <= i < fields.len() ==> !(#[trigger] fields[i]).tells_length(),
        input@ == encode_utf8(lines(fields) + "\r\n"@) + rest,
        call_ensures(read_frame, (input,), frame),
    ensures
        frame matches Err(Error::Protocol(text)) && text@ == "Missing content-length"@,
{
    reveal_strlit("\r\n");
    reveal_strlit("\n");
    reveal_strlit("\r");
    lemma_encode_concat(lines(fields), "\r\n"@);
    let tail = encode_utf8("\r\n"@) + rest;
    assert(input@ =~= encode_utf8(lines(fields)) + tail);
    lemma_fields(fields, tail, None);
    lemma_length_after(fields, None, -1);
    assert("\r\n"@ =~= "\r"@ + "\n"@);
    lemma_line("\r"@, rest);
}

/// A length that is no number is refused, and the refusal names it.
pub proof fn law_length_is_a_number(
    fields: Seq<Field>,
    field: Field,
    rest: Seq<u8>,
    input: &[u8],
    frame: Result<Frame>,
)
    requires
        readable(fields),
        field.well_formed(),
        field.tells_length(),
        parsed_usize(field.value) is None,
        input@ == encode_utf8(lines(fields) + field.line()) + rest,
        call_ensures(read_frame, (input,), frame),
    ensures
        frame matches Err(Error::Protocol(text)) && text@ == "Invalid content-length: "@
            + field.value,
{
    lemma_encode_concat(lines(fields), field.line());
    let tail = encode_utf8(field.line()) + rest;
    assert(input@ =~= encode_utf8(lines(fields)) + tail);
    lemma_fields(fields, tail, None);
    lemma_field_line(field);
    lemma_line(field.name + ": "@ + field.value + "\r"@, rest);
}

/// A line that does not end in `"\r\n"`, and one without `": "` that is not empty, is no field, and
/// is refused with its text.
pub proof fn law_other_lines_are_refused(
    fields: Seq<Field>,
    text: Seq<char>,
    rest: Seq<u8>,
    input: &[u8],
    frame: Result<Frame>,
)
    requires
        readable(fields),
        !text.contains('\n'),
        text != "\r"@,
        text.len() == 0 || text.last() != '\r' || forall|i: int|
            0 <= i < text.len() - 1 ==> !(#[trigger] text[i] == ':' && text[i + 1] == ' '),
        input@ == encode_utf8(lines(fields) + text + "\n"@) + rest,
        call_ensures(read_frame, (input,), frame),
    ensures
        frame matches Err(Error::Protocol(detail)) && detail@ == "Invalid header: "@ + debug_text(
            text + "\n"@,
        ),
{
    reveal_strlit("\r\n");
    reveal_strlit("\n");
    reveal_strlit("\r");
    let line = text + "\n"@;
    assert(lines(fields) + text + "\n"@ =~= lines(fields) + line);
    lemma_encode_concat(lines(fields), line);
    let tail = encode_utf8(line) + rest;
    assert(input@ =~= encode_utf8(lines(fields)) + tail);
    lemma_fields(fields, tail, None);
    lemma_line(text, rest);
    if line == "\r\n"@ {
        assert(text =~= line.take(1));
        assert(text =~= "\r"@);
    }
    if "\r\n"@.is_suffix_of(line) {
        let end = line.subrange(line.len() - 2, line.len() as int);
        assert(end == "\r\n"@);
        assert(end[0] == line[line.len() - 2]);
        assert(text.last() == '\r');
        let field = line.take(line.len() - 2);
        assert(field =~= text.take(text.len() - 1));
        assert forall|i: int| 0 <= i < field.len() - 1 implies !(#[trigger] field[i] == ':'
            && field[i + 1] == ' ') by {
            assert(text[i] == field[i] && text[i + 1] == field[i + 1]);
        }
        lemma_no_separator(field, 0);
    }
}

/// Where a channel ends between two lines of a header, or before the first, its end is reported;
/// within a line, the piece of the line is refused.
pub proof fn law_end_within_a_header(
    fields: Seq<Field>,
    text: Seq<char>,
    input: &[u8],
    frame: Result<Frame>,
)
    requires
        readable(fields),
        !text.contains('\n'),
        input@ == encode_utf8(lines(fields) + text),
        call_ensures(read_frame, (input,), frame),
    ensures
        text.len() == 0 ==> frame == Err::<Frame, Error>(Error::Eof),
        text.len() > 0 ==> (frame matches Err(Error::Protocol(detail)) && detail@
            == "Invalid header: "@ + debug_text(text)),
{
    broadcast use {vstd::utf8::encode_utf8_decode_utf8, vstd::utf8::encode_utf8_valid_utf8};

    reveal_strlit("\r\n");
    let tail = encode_utf8(text);
    lemma_encode_concat(lines(fields), text);
    lemma_fields(fields, tail, None);
    lemma_encode_without_line_feed(text);
    lemma_line_len_of(tail, Seq::empty());
    assert(tail.take(tail.len() as int) =~= tail);
    assert(text != "\r\n"@ && !"\r\n"@.is_suffix_of(text)) by {
        if text.len() >= 2 {
            assert(text.contains(text.last()));
            let end = text.subrange(text.len() - 2, text.len() as int);
            assert(end[1] == text.last());
            assert("\r\n"@[1] == '\n');
            if text == "\r\n"@ {
                assert(text.last() == '\n');
            }
        }
    }
    assert(header_line(text) == if text.len() == 0 {
        HeaderLine::Missing
    } else {
        HeaderLine::Malformed
    });
}

/// Where a channel ends within a content, that is reported as an error of the channel.
pub proof fn law_end_within_a_content(
    fields: Seq<Field>,
    at: int,
    piece: Seq<u8>,
    input: &[u8],
    frame: Result<Frame>,
)
    requires
        readable(fields),
        0 <= at < fields.len(),
        fields[at].tells_length(),
        parsed_usize(fields[at].value) matches Some(length) && length > piece.len(),
        forall|i: int| at < i < fields.len() ==> !(#[trigger] fields[i]).tells_length(),
        input@ == encode_utf8(lines(fields) + "\r\n"@) + piece,
        call_ensures(read_frame, (input,), frame),
    ensures
        frame matches Err(Error::Io(err)) && says_unexpected_eof(err),
{
    reveal_strlit("\r\n");
    reveal_strlit("\n");
    reveal_strlit("\r");
    let tail = encode_utf8("\r\n"@) + piece;
    lemma_encode_concat(lines(fields), "\r\n"@);
    assert(input@ =~= encode_utf8(lines(fields)) + tail);
    lemma_fields(fields, tail, None);
    lemma_length_after(fields, None, at);
    assert("\r\n"@ =~= "\r"@ + "\n"@);
    lemma_line("\r"@, piece);
}

/// A line of the header that is not UTF-8 is reported as an error of the channel, whether a line
/// feed or the end of the channel ends it.
pub proof fn law_header_is_utf8(
    fields: Seq<Field>,
    bytes: Seq<u8>,
    line: Seq<u8>,
    rest: Seq<u8>,
    input: &[u8],
    frame: Result<Frame>,
)
    requires
        readable(fields),
        !bytes.contains(10u8),
        line == bytes.push(10u8) || line == bytes && rest.len() == 0,
        !valid_utf8(line),
        input@ == encode_utf8(lines(fields)) + line + rest,
        call_ensures(read_frame, (input,), frame),
    ensures
        frame matches Err(Error::Io(err)) && says_not_utf8(err),
{
    let tail = line + rest;
    assert(input@ =~= encode_utf8(lines(fields)) + tail);
    lemma_fields(fields, tail, None);
    lemma_line_len_of(bytes, rest);
    if line == bytes.push(10u8) {
        assert(tail =~= bytes + seq![10u8] + rest);
    } else {
        assert(tail =~= bytes);
    }
    assert(tail.take(line.len() as int) =~= line);
}

/// A written message is the length of its content in bytes, in one field, and the content.
pub proof fn law_written_message(
    content: &[u8],
    bytes: Vec<u8>,
    len: usize,
    header: String,
)
    ensures
        call_ensures(write_frame, (content,), bytes) ==> bytes@ == encode_utf8(
            "Content-Length: "@ + decimal(content@.len()) + "\r\n\r\n"@,
        ) + content@,
        call_ensures(frame_header, (len,), header) ==> header@ == "Content-Length: "@ + decimal(
            len as nat,
        ) + "\r\n\r\n"@,
{
    reveal_strlit("Content-Length: ");
    reveal_strlit("Content-Length");
    reveal_strlit(": ");
    assert("Content-Length"@ + ": "@ =~= "Content-Length: "@);
}

/// What was written is read back, whatever follows it on the channel.
pub proof fn law_written_is_read_back(
    content: &[u8],
    bytes: Vec<u8>,
    rest: Seq<u8>,
    input: &[u8],
    frame: Result<Frame>,
)
    requires
        call_ensures(write_frame, (content,), bytes),
        input@ == bytes@ + rest,
        call_ensures(read_frame, (input,), frame),
    ensures
        frame matches Ok(frame) && {
            &&& frame.content@ == content@
            &&& frame.consumed == bytes@.len()
        },
{
    broadcast use vstd::slice::group_slice_axioms;

    assert(content@.len() == content.len());
    law_read_written(content@, rest);
}

/// A message that is read is a piece of the channel: its content ends where the next message
/// starts.
pub proof fn law_content_is_a_piece_of_the_channel(input: &[u8], frame: Result<Frame>)
    requires
        call_ensures(read_frame, (input,), frame),
    ensures
        frame matches Ok(frame) ==> {
            &&& frame.content@.len() < frame.consumed <= input@.len()
            &&& frame.content@ == input@.subrange(
                frame.consumed - frame.content@.len(),
                frame.consumed as int,
            )
        },
{
    if found_in(input@, None) is Content {
        law_rest_changes_nothing(input@, Seq::empty(), None);
    }
}

/// A reader takes fields one by one. One that tells a length sets it, and another one changes
/// nothing. The empty line gives the length, and the end of the input is reported.
pub proof fn law_reader_takes_fields(field: Field, line: &str, new: HeaderReader)
    requires
        field.well_formed(),
    ensures
        call_ensures(HeaderReader::new, (), new) ==> new@ is None,
        forall|reader: &mut HeaderReader, complete: Result<Option<usize>>| #[trigger]
            call_ensures(HeaderReader::feed, (reader, line), complete) ==> {
                &&& line@ == field.line() && !field.tells_length() ==> complete == Ok::<
                    Option<usize>,
                    Error,
                >(None) && final(reader)@ == reader@
                &&& line@ == field.line() && field.tells_length() ==> match parsed_usize(
                    field.value,
                ) {
                    Some(length) => complete == Ok::<Option<usize>, Error>(None)
                        && final(reader)@ == Some(length),
                    None => complete matches Err(Error::Protocol(_)) && final(reader)@ == reader@,
                }
                &&& line@ == "\r\n"@ ==> final(reader)@ == reader@ && match reader@ {
                    Some(length) => complete == Ok::<Option<usize>, Error>(Some(length)),
                    None => complete matches Err(Error::Protocol(_)),
                }
                &&& line@.len() == 0 ==> complete == Err::<Option<usize>, Error>(Error::Eof)
            },
{
    reveal_strlit("\r\n");
    lemma_field_line(field);
}

} // verus!
