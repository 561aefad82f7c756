//! Reading a line of bounded length, byte by byte.

use crate::daemon::protocol::MAX_REQUEST_BYTES;
use crate::daemon::protocol::error_json;
use crate::daemon::protocol::error_response;
use crate::daemon::protocol::success_json;
use crate::daemon::protocol::success_text;
use crate::daemon::protocol::too_long;
use crate::json::plain::is_plain;
use crate::json::plain::printed_value_is_plain;
use crate::json::value::Json;
use crate::json::writer::Object;
use crate::json::writer::field_text;
use crate::json::writer::field_texts;
use crate::json::writer::json_text;
use crate::json::writer::lemma_field_texts;
use crate::json::writer::object_text;
use crate::text::is_control;
use crate::text::join_text;
use crate::text::lemma_encode_concat;
use crate::text::option_view;
use crate::text::strict_string;
use vstd::prelude::*;
use vstd::utf8::decode_utf8;
use vstd::utf8::encode_utf8;
use vstd::utf8::encode_scalar;
use vstd::utf8::valid_utf8;

verus! {

/// The byte that ends a line.
pub const LINE_FEED: u8 = 10;

/// The byte that may stand before the end of a line.
pub const CARRIAGE_RETURN: u8 = 13;

/// A line of which more may come.
#[derive(Debug, PartialEq, Eq)]
pub struct LineReader {
    pub bytes: Vec<u8>,
}

/// What one byte more, or the end of the stream, makes of a line.
#[derive(Debug, PartialEq, Eq)]
pub enum LineStep {
    /// The line goes on.
    More,
    /// The stream ended before the line began.
    Closed,
    /// The line is complete.
    Line(String),
    /// The line is complete, but is no text.
    NotText,
    /// The line is longer than lines may be.
    TooLong,
}

/// The view of a [`LineStep`].
#[verifier::ext_equal]
pub enum LineStepView {
    More,
    Closed,
    Line(Seq<char>),
    NotText,
    TooLong,
}

impl View for LineStep {
    type V = LineStepView;

    open spec fn view(&self) -> LineStepView {
        match self {
            LineStep::More => LineStepView::More,
            LineStep::Closed => LineStepView::Closed,
            LineStep::Line(text) => LineStepView::Line(text@),
            LineStep::NotText => LineStepView::NotText,
            LineStep::TooLong => LineStepView::TooLong,
        }
    }
}

/// The text of a complete line.
pub open spec fn line_of(bytes: Seq<u8>) -> LineStepView {
    if valid_utf8(bytes) {
        LineStepView::Line(decode_utf8(bytes))
    } else {
        LineStepView::NotText
    }
}

/// A line without the carriage return at its end.
pub open spec fn without_carriage_return(bytes: Seq<u8>) -> Seq<u8> {
    if bytes.len() > 0 && bytes.last() == CARRIAGE_RETURN {
        bytes.drop_last()
    } else {
        bytes
    }
}

/// What one byte more, or the end of the stream, makes of a line.
pub open spec fn line_step(bytes: Seq<u8>, input: Option<u8>) -> LineStepView {
    match input {
        None => if bytes.len() == 0 {
            LineStepView::Closed
        } else {
            line_of(bytes)
        },
        Some(byte) => if byte == LINE_FEED {
            line_of(without_carriage_return(bytes))
        } else if bytes.len() >= MAX_REQUEST_BYTES {
            LineStepView::TooLong
        } else {
            LineStepView::More
        },
    }
}

/// What a line holds after one byte more.
pub open spec fn line_bytes(bytes: Seq<u8>, input: Option<u8>) -> Seq<u8> {
    if line_step(bytes, input) is More {
        bytes.push(input->0)
    } else {
        bytes
    }
}

fn finish_line(bytes: Vec<u8>) -> (step: LineStep)
    ensures
        step@ == line_of(bytes@),
{
    match strict_string(bytes) {
        Some(text) => LineStep::Line(text),
        None => LineStep::NotText,
    }
}

fn copy_bytes(bytes: &Vec<u8>, count: usize) -> (copy: Vec<u8>)
    requires
        count <= bytes.len(),
    ensures
        copy@ == bytes@.take(count as int),
{
    let copy = crate::bytes::slice_bytes(bytes, 0, count);
    assert(copy@ =~= bytes@.take(count as int));
    copy
}

impl LineReader {
    /// A line that has not begun.
    pub fn new() -> (reader: LineReader)
        ensures
            reader.bytes@ == Seq::<u8>::empty(),
    {
        LineReader { bytes: Vec::new() }
    }

    /// Takes one byte more, or the end of the stream.
    pub fn feed(&mut self, input: Option<u8>) -> (step: LineStep)
        ensures
            step@ == line_step(old(self).bytes@, input),
            final(self).bytes@ == line_bytes(old(self).bytes@, input),
    {
        let length: usize = self.bytes.len();
        match input {
            None => {
                if length == 0 {
                    return LineStep::Closed;
                }
                let all = copy_bytes(&self.bytes, length);
                assert(all@ =~= self.bytes@);
                finish_line(all)
            },
            Some(byte) => {
                if byte == LINE_FEED {
                    let kept: usize = if length > 0 && self.bytes[length - 1] == CARRIAGE_RETURN {
                        length - 1
                    } else {
                        length
                    };
                    let line = copy_bytes(&self.bytes, kept);
                    assert(line@ =~= without_carriage_return(self.bytes@));
                    return finish_line(line);
                }
                if length >= MAX_REQUEST_BYTES {
                    return LineStep::TooLong;
                }
                self.bytes.push(byte);
                LineStep::More
            },
        }
    }
}

/// The answer to a line that is longer than lines may be, or is no text.
pub open spec fn refusal(step: LineStepView) -> Option<Seq<char>> {
    match step {
        LineStepView::TooLong => Some(
            json_text(error_json(None, "request_too_large"@, "request exceeds 1 MiB"@)),
        ),
        LineStepView::NotText => Some(
            json_text(error_json(None, "invalid_request"@, "request is not UTF-8"@)),
        ),
        _ => None,
    }
}

/// Prints the answer to a line that is longer than lines may be, or is no text.
pub fn refusal_of(step: &LineStep) -> (answer: Option<String>)
    ensures
        option_view(answer) == refusal(step@),
{
    match step {
        LineStep::TooLong => Some(
            error_response(None, "request_too_large", "request exceeds 1 MiB"),
        ),
        LineStep::NotText => Some(
            error_response(None, "invalid_request", "request is not UTF-8"),
        ),
        _ => None,
    }
}

/// What a line holds after some bytes more.
pub open spec fn fed(bytes: Seq<u8>, input: Seq<u8>) -> Seq<u8>
    decreases input.len(),
{
    if input.len() == 0 {
        bytes
    } else {
        line_bytes(fed(bytes, input.drop_last()), Some(input.last()))
    }
}

/// However many bytes come, no more is kept than a line may hold.
pub proof fn line_is_bounded(input: Seq<u8>)
    ensures
        fed(seq![], input).len() <= MAX_REQUEST_BYTES,
    decreases input.len(),
{
    if input.len() > 0 {
        line_is_bounded(input.drop_last());
    }
}

/// What reading a line from a stream comes to after some bytes of the line, and how
/// many bytes of the stream are taken for it: bytes are taken until the line is over.
pub open spec fn read_line(bytes: Seq<u8>, stream: Seq<u8>) -> (LineStepView, nat)
    decreases stream.len(),
{
    if stream.len() == 0 {
        (line_step(bytes, None), 0)
    } else {
        let step = line_step(bytes, Some(stream[0]));
        if step is More {
            let (end, taken) = read_line(
                line_bytes(bytes, Some(stream[0])),
                stream.drop_first(),
            );
            (end, taken + 1)
        } else {
            (step, 1)
        }
    }
}

proof fn lemma_read_on(bytes: Seq<u8>, line: Seq<u8>, stream: Seq<u8>)
    requires
        forall|i: int| 0 <= i < line.len() ==> #[trigger] line[i] != LINE_FEED,
        bytes.len() <= MAX_REQUEST_BYTES,
    ensures
        read_line(bytes, line + stream) == (if bytes.len() + line.len() > MAX_REQUEST_BYTES {
            (LineStepView::TooLong, (MAX_REQUEST_BYTES - bytes.len() + 1) as nat)
        } else {
            let (end, taken) = read_line(bytes + line, stream);
            (end, taken + line.len())
        }),
    decreases line.len(),
{
    let all = line + stream;
    if line.len() == 0 {
        assert(all =~= stream);
        assert(bytes + line =~= bytes);
    } else {
        assert(all[0] == line[0]);
        assert(all.drop_first() =~= line.drop_first() + stream);
        if bytes.len() < MAX_REQUEST_BYTES {
            let more = bytes.push(line[0]);
            lemma_read_on(more, line.drop_first(), stream);
            assert(more + line.drop_first() =~= bytes + line);
        }
    }
}

/// What a stream gives that begins with a line and a line feed, whatever follows:
/// a complaint where the line is too long, and else the text of the line, less one
/// carriage return at its end, or a complaint where that is no text. Nothing after
/// the line feed is taken.
pub proof fn stream_gives_its_first_line(line: Seq<u8>, rest: Seq<u8>)
    requires
        forall|i: int| 0 <= i < line.len() ==> #[trigger] line[i] != LINE_FEED,
    ensures
        read_line(seq![], line.push(LINE_FEED) + rest) == (if line.len() > MAX_REQUEST_BYTES {
            (LineStepView::TooLong, (MAX_REQUEST_BYTES + 1) as nat)
        } else {
            (line_of(without_carriage_return(line)), line.len() + 1)
        }),
{
    let stream = seq![LINE_FEED] + rest;
    assert(line.push(LINE_FEED) + rest =~= line + stream);
    assert(Seq::<u8>::empty() + line =~= line);
    lemma_read_on(seq![], line, stream);
}

/// What a stream gives that ends before any line feed: nothing where it is empty,
/// a complaint where it is too long, and else its text, or a complaint where it is
/// no text.
pub proof fn stream_without_line_feed_is_one_line(line: Seq<u8>)
    requires
        forall|i: int| 0 <= i < line.len() ==> #[trigger] line[i] != LINE_FEED,
    ensures
        read_line(seq![], line) == (if line.len() > MAX_REQUEST_BYTES {
            (LineStepView::TooLong, (MAX_REQUEST_BYTES + 1) as nat)
        } else if line.len() == 0 {
            (LineStepView::Closed, 0)
        } else {
            (line_of(line), line.len())
        }),
{
    assert(line + Seq::<u8>::empty() =~= line);
    assert(Seq::<u8>::empty() + line =~= line);
    lemma_read_on(seq![], line, seq![]);
}

/// It does not matter to a line that its first byte was read before the rest.
pub proof fn first_byte_may_be_read_before(first: u8, rest: Seq<u8>)
    ensures
        read_line(seq![], seq![first] + rest) == (if line_step(seq![], Some(first)) is More {
            let (end, taken) = read_line(seq![first], rest);
            (end, taken + 1)
        } else {
            (line_step(seq![], Some(first)), 1)
        }),
{
    let stream = seq![first] + rest;
    assert(stream.drop_first() =~= rest);
    assert(Seq::<u8>::empty().push(first) =~= seq![first]);
}

/// Whether bytes can stand on a line: no line feed is among them, no carriage
/// return at their end, and they are not too many.
pub open spec fn fits_on_a_line(bytes: Seq<u8>) -> bool {
    &&& forall|i: int| 0 <= i < bytes.len() ==> #[trigger] bytes[i] != LINE_FEED
    &&& bytes.len() > 0 ==> bytes.last() != CARRIAGE_RETURN
    &&& bytes.len() <= MAX_REQUEST_BYTES
}

proof fn lemma_fed(bytes: Seq<u8>, count: nat)
    requires
        forall|i: int| 0 <= i < bytes.len() ==> #[trigger] bytes[i] != LINE_FEED,
        bytes.len() <= MAX_REQUEST_BYTES,
        count <= bytes.len(),
    ensures
        fed(seq![], bytes.take(count as int)) == bytes.take(count as int),
    decreases count,
{
    if count > 0 {
        lemma_fed(bytes, (count - 1) as nat);
        let part = bytes.take(count as int);
        assert(part.drop_last() =~= bytes.take(count - 1));
        assert(bytes[count - 1] != LINE_FEED);
        assert(part =~= bytes.take(count - 1).push(bytes[count - 1]));
    } else {
        assert(bytes.take(0) =~= seq![]);
    }
}

/// A message that is written as a line is read as it was written.
pub proof fn line_is_read_back(message: Seq<char>)
    requires
        fits_on_a_line(encode_utf8(message)),
    ensures
        line_step(fed(seq![], encode_utf8(message)), Some(LINE_FEED)) == LineStepView::Line(
            message,
        ),
{
    let bytes = encode_utf8(message);
    lemma_fed(bytes, bytes.len());
    assert(bytes.take(bytes.len() as int) =~= bytes);
    vstd::utf8::encode_utf8_valid_utf8(message);
    vstd::utf8::encode_utf8_decode_utf8(message);
}

proof fn lemma_scalar_holds_no_feed(scalar: u32)
    requires
        scalar != LINE_FEED,
    ensures
        forall|i: int|
            0 <= i < encode_scalar(scalar).len() ==> #[trigger] encode_scalar(scalar)[i]
                != LINE_FEED,
{
    assert(scalar <= 0x7f && scalar != 10 ==> (scalar & 0x7F) as u8 != 10) by (bit_vector);
    assert(0xC0 | ((scalar >> 6) & 0x1F) as u8 != 10) by (bit_vector);
    assert(0xE0 | ((scalar >> 12) & 0x0F) as u8 != 10) by (bit_vector);
    assert(0xF0 | ((scalar >> 18) & 0x7) as u8 != 10) by (bit_vector);
    assert(0x80 | (scalar & 0x3F) as u8 != 10) by (bit_vector);
    assert(0x80 | ((scalar >> 6) & 0x3F) as u8 != 10) by (bit_vector);
    assert(0x80 | ((scalar >> 12) & 0x3F) as u8 != 10) by (bit_vector);
}

proof fn lemma_plain_text_holds_no_feed(text: Seq<char>)
    requires
        is_plain(text),
    ensures
        forall|i: int|
            0 <= i < encode_utf8(text).len() ==> #[trigger] encode_utf8(text)[i] != LINE_FEED,
    decreases text.len(),
{
    if text.len() > 0 {
        lemma_plain_text_holds_no_feed(text.drop_first());
        assert(!is_control(text[0]));
        let first = encode_scalar(text[0] as u32);
        let rest = encode_utf8(text.drop_first());
        lemma_scalar_holds_no_feed(text[0] as u32);
        assert(encode_utf8(text) == first + rest);
        assert forall|i: int| 0 <= i < encode_utf8(text).len() implies #[trigger] encode_utf8(
            text,
        )[i] != LINE_FEED by {
            if i < first.len() {
                assert((first + rest)[i] == first[i]);
            } else {
                assert((first + rest)[i] == rest[i - first.len()]);
            }
        }
    }
}

proof fn lemma_object_ends_with_brace(fields: Seq<Seq<char>>)
    ensures
        encode_utf8(object_text(fields)).len() > 0,
        encode_utf8(object_text(fields)).last() != CARRIAGE_RETURN,
{
    reveal_strlit("}");
    let front = "{"@ + join_text(fields, ","@);
    lemma_encode_concat(front, "}"@);
    assert("}"@ =~= seq!['}']);
    assert("}"@.drop_first() =~= seq![]);
    let scalar = '}' as u32;
    assert((scalar & 0x7F) as u8 == 0x7d) by (bit_vector)
        requires
            scalar == 0x7du32,
    ;
    assert(encode_scalar(scalar) =~= seq![0x7du8]);
    assert(encode_utf8("}"@.drop_first()) =~= seq![]);
    assert(encode_utf8("}"@) == encode_scalar("}"@[0] as u32) + encode_utf8("}"@.drop_first()));
    assert(encode_utf8("}"@) =~= seq![0x7du8]);
}

/// A printed object that is not too long stands on a line, and is read from it as
/// it was printed.
pub proof fn printed_object_is_a_line(fields: Seq<(Seq<char>, Json)>)
    requires
        !too_long(json_text(Json::Object(fields))),
    ensures
        ({
            let message = json_text(Json::Object(fields));
            line_step(fed(seq![], encode_utf8(message)), Some(LINE_FEED)) == LineStepView::Line(
                message,
            )
        }),
{
    let message = json_text(Json::Object(fields));
    printed_value_is_plain(Json::Object(fields));
    lemma_plain_text_holds_no_feed(message);
    lemma_object_ends_with_brace(field_texts(fields));
    line_is_read_back(message);
}

/// A response around a printed result that is not too long stands on a line, and
/// is read from it as it was written.
pub proof fn success_is_a_line(request_id: Seq<char>, result: Json)
    requires
        !too_long(success_text(request_id, json_text(result))),
    ensures
        ({
            let message = success_text(request_id, json_text(result));
            line_step(fed(seq![], encode_utf8(message)), Some(LINE_FEED)) == LineStepView::Line(
                message,
            )
        }),
{
    let value = success_json(request_id, result);
    let fields = value->Object_0;
    lemma_field_texts(fields);
    assert(field_texts(fields) =~= seq![
        field_text(fields[0]),
        field_text(fields[1]),
        field_text(fields[2]),
        field_text(fields[3]),
    ]);
    printed_object_is_a_line(fields);
}

} // verus!
