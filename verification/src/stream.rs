//! Turning the frames of an event stream into chunks.

use crate::err::Error;
use crate::json::{json_parse, Json};
use crate::text::{chars_of, slice_of, starts_with, str_eq, string_of, utf8_text};
use crate::types::{InboundResponseChunk, ResponseChunk, ResponseChunkView};
use crate::wire::chunks_of_event_json;
use vstd::prelude::*;
use vstd::string::{StringExecFns, StringSliceAdditionalSpecFns};
use vstd::utf8::valid_utf8;

verus! {

/// How the service frames its streamed events.
#[derive(Debug, Clone, Copy, PartialEq, Eq, Structural)]
pub enum Dialect {
    /// Every frame holds one whole JSON object.
    SelfContained,
    /// A JSON object may be spread over several frames, each of which may carry
    /// the line prefix `data:`.
    Fragmented,
}

/// What a frame yields.
#[derive(Debug, Clone, PartialEq, Eq)]
pub enum FrameEvent {
    /// A chunk: the beginning of a response, a piece of text, the end of a
    /// response, or, from a stream of whole objects, the end of the stream.
    Chunk(ResponseChunk),
    /// The text gathered so far is no whole JSON object yet.
    PartialData,
    /// A stream of fragments has ended; `last` is the chunk of the last whole
    /// object that the stream held.
    Finished {
        /// The chunk of the last whole object, if there was one.
        last: Option<ResponseChunk>,
    },
}

/// Decodes the frames of one stream, in the order of their arrival. A stream is
/// decoded once, from its first frame to its end.
#[derive(Debug)]
pub struct FrameDecoder {
    /// How the stream is framed.
    pub dialect: Dialect,
    /// The text gathered since the last whole object; empty for whole objects.
    pub buffer: String,
    /// The chunk of the last whole object of a stream of fragments.
    pub last: Option<ResponseChunk>,
    /// Whether the stream is over, by its terminator or by a failure.
    pub ended: bool,
}

/// What a [`FrameDecoder`] holds.
pub struct FrameDecoderView {
    pub dialect: Dialect,
    pub buffer: Seq<char>,
    pub last: Option<ResponseChunkView>,
    pub ended: bool,
}

/// What a frame yields, or the detail of the failure that ends the stream.
pub enum FrameOutcome {
    Chunk(ResponseChunkView),
    PartialData,
    Finished { last: Option<ResponseChunkView> },
    Malformed(Seq<char>),
}

/// A decoder after a frame, and what the frame yielded.
pub struct Accepted {
    pub decoder: FrameDecoderView,
    pub outcome: FrameOutcome,
}

impl DeepView for FrameDecoder {
    type V = FrameDecoderView;

    open spec fn deep_view(&self) -> FrameDecoderView {
        FrameDecoderView {
            dialect: self.dialect,
            buffer: self.buffer@,
            last: self.last.deep_view(),
            ended: self.ended,
        }
    }
}

impl View for FrameDecoder {
    type V = FrameDecoderView;

    open spec fn view(&self) -> FrameDecoderView {
        self.deep_view()
    }
}

/// The frame that ends every stream.
pub open spec fn terminator() -> Seq<char> {
    "[DONE]"@
}

/// A frame without its line prefix: without a leading `data: `, or else without a
/// leading `data:`.
pub open spec fn strip_framing(frame: Seq<char>) -> Seq<char> {
    if "data: "@.is_prefix_of(frame) {
        frame.subrange("data: "@.len() as int, frame.len() as int)
    } else if "data:"@.is_prefix_of(frame) {
        frame.subrange("data:"@.len() as int, frame.len() as int)
    } else {
        frame
    }
}

/// The chunk of the JSON document `text`: the chunk of the first choice of the
/// event that it holds. `None` where `text` is no JSON document.
pub open spec fn event_chunk(text: Seq<char>) -> Option<Option<ResponseChunkView>> {
    match json_parse(text) {
        Some(event) => Some(
            match chunks_of_event_json(event) {
                Some(chunks) => if chunks.len() > 0 {
                    Some(chunks[0])
                } else {
                    None
                },
                None => None,
            },
        ),
        None => None,
    }
}

/// The decoder after a failure that ends the stream.
pub open spec fn failed(decoder: FrameDecoderView, detail: Seq<char>) -> Accepted {
    Accepted {
        decoder: FrameDecoderView {
            dialect: decoder.dialect,
            buffer: Seq::empty(),
            last: decoder.last,
            ended: true,
        },
        outcome: FrameOutcome::Malformed(detail),
    }
}

/// What a frame does to a stream of whole objects. The terminator ends the stream
/// with the chunk `Done`; any other frame has to be a JSON document that holds an
/// event with at least one choice, and yields the chunk of the first choice.
/// Anything else breaks the protocol and ends the stream.
pub open spec fn accept_whole(decoder: FrameDecoderView, frame: Seq<char>) -> Accepted {
    if frame == terminator() {
        Accepted {
            decoder: FrameDecoderView {
                dialect: decoder.dialect,
                buffer: decoder.buffer,
                last: decoder.last,
                ended: true,
            },
            outcome: FrameOutcome::Chunk(ResponseChunkView::Done),
        }
    } else {
        match event_chunk(frame) {
            Some(Some(chunk)) => Accepted { decoder, outcome: FrameOutcome::Chunk(chunk) },
            _ => failed(decoder, "Invalid inbound streaming response payload!"@),
        }
    }
}

/// What a frame does to a stream of fragments. The frame is taken without its
/// line prefix. The terminator ends the stream, empties the gathered text, and
/// carries the chunk of the last whole object. Any other frame is added to the
/// gathered text. While that text is no JSON document, the frame yields the mark
/// of partial data. Once it is one, the gathered text is emptied and the frame
/// yields the chunk of the first choice of the event; a document that holds no
/// such event breaks the protocol and ends the stream.
pub open spec fn accept_fragment(decoder: FrameDecoderView, frame: Seq<char>) -> Accepted {
    let payload = strip_framing(frame);
    if payload == terminator() {
        Accepted {
            decoder: FrameDecoderView {
                dialect: decoder.dialect,
                buffer: Seq::empty(),
                last: decoder.last,
                ended: true,
            },
            outcome: FrameOutcome::Finished { last: decoder.last },
        }
    } else {
        let text = decoder.buffer + payload;
        match event_chunk(text) {
            None => Accepted {
                decoder: FrameDecoderView {
                    dialect: decoder.dialect,
                    buffer: text,
                    last: decoder.last,
                    ended: false,
                },
                outcome: FrameOutcome::PartialData,
            },
            Some(Some(chunk)) => Accepted {
                decoder: FrameDecoderView {
                    dialect: decoder.dialect,
                    buffer: Seq::empty(),
                    last: Some(chunk),
                    ended: false,
                },
                outcome: FrameOutcome::Chunk(chunk),
            },
            Some(None) => failed(decoder, "Invalid inbound streaming response payload!"@),
        }
    }
}

/// What a frame does to a decoder. A frame after the end of the stream is a
/// failure and changes nothing.
pub open spec fn accepted(decoder: FrameDecoderView, frame: Seq<char>) -> Accepted {
    if decoder.ended {
        Accepted { decoder, outcome: FrameOutcome::Malformed("The stream has already ended"@) }
    } else {
        match decoder.dialect {
            Dialect::SelfContained => accept_whole(decoder, frame),
            Dialect::Fragmented => accept_fragment(decoder, frame),
        }
    }
}

/// What the result of a step stands for.
pub open spec fn outcome_of(result: Result<FrameEvent, Error>) -> Option<FrameOutcome> {
    match result {
        Ok(FrameEvent::Chunk(chunk)) => Some(FrameOutcome::Chunk(chunk@)),
        Ok(FrameEvent::PartialData) => Some(FrameOutcome::PartialData),
        Ok(FrameEvent::Finished { last }) => Some(FrameOutcome::Finished { last: last.deep_view() }),
        Err(Error::MalformedStream(detail)) => Some(FrameOutcome::Malformed(detail@)),
        Err(_) => None,
    }
}

/// The chunk of the first choice of the event that `text` holds.
fn decode_event(text: &str) -> (r: Option<Option<ResponseChunk>>)
    ensures
        r.deep_view() == event_chunk(text@),
{
    match Json::parse(text) {
        None => None,
        Some(document) => match InboundResponseChunk::from_json(&document) {
            None => Some(None),
            Some(event) => match ResponseChunk::from_inbound(&event) {
                Ok(chunk) => Some(Some(chunk)),
                Err(_) => Some(None),
            },
        },
    }
}

/// The frame without its line prefix.
fn without_framing(frame: &str) -> (r: String)
    ensures
        r@ == strip_framing(frame@),
{
    let chars = chars_of(frame);
    let spaced = chars_of("data: ");
    let bare = chars_of("data:");
    if starts_with(&chars, &spaced) {
        string_of(&slice_of(&chars, spaced.len(), chars.len()))
    } else if starts_with(&chars, &bare) {
        string_of(&slice_of(&chars, bare.len(), chars.len()))
    } else {
        frame.to_owned()
    }
}

impl FrameEvent {
    /// The chunk that the event is for a consumer that assembles messages: the
    /// chunk itself, `Done` for the end of a stream of fragments, and nothing for
    /// the mark of partial data.
    pub fn into_chunk(self) -> (r: Option<ResponseChunk>)
        ensures
            match self {
                FrameEvent::Chunk(chunk) => r == Some(chunk),
                FrameEvent::PartialData => r is None,
                FrameEvent::Finished { .. } => r == Some(ResponseChunk::Done),
            },
    {
        match self {
            FrameEvent::Chunk(chunk) => Some(chunk),
            FrameEvent::PartialData => None,
            FrameEvent::Finished { .. } => Some(ResponseChunk::Done),
        }
    }
}

impl FrameDecoder {
    /// A decoder at the start of a stream.
    pub fn new(dialect: Dialect) -> (r: Self)
        ensures
            r@ == (FrameDecoderView { dialect, buffer: Seq::empty(), last: None, ended: false }),
    {
        FrameDecoder { dialect, buffer: String::new(), last: None, ended: false }
    }

    fn fail(&mut self) -> (r: Error)
        ensures
            final(self)@ == failed(old(self)@, "Invalid inbound streaming response payload!"@).decoder,
            r matches Error::MalformedStream(detail) && detail@
                == "Invalid inbound streaming response payload!"@,
    {
        self.buffer = String::new();
        self.ended = true;
        Error::MalformedStream("Invalid inbound streaming response payload!".to_owned())
    }

    /// Takes the next frame of the stream.
    ///
    /// Every failure is an [`Error::MalformedStream`] and, but for a frame that
    /// comes after the end, ends the stream.
    pub fn accept(&mut self, frame: &str) -> (r: Result<FrameEvent, Error>)
        ensures
            final(self)@ == accepted(old(self)@, frame@).decoder,
            outcome_of(r) == Some(accepted(old(self)@, frame@).outcome),
    {
        if self.ended {
            return Err(Error::MalformedStream("The stream has already ended".to_owned()));
        }
        match self.dialect {
            Dialect::SelfContained => {
                if str_eq(frame, "[DONE]") {
                    self.ended = true;
                    return Ok(FrameEvent::Chunk(ResponseChunk::Done));
                }
                match decode_event(frame) {
                    Some(Some(chunk)) => Ok(FrameEvent::Chunk(chunk)),
                    _ => Err(self.fail()),
                }
            },
            Dialect::Fragmented => {
                let payload = without_framing(frame);
                if str_eq(payload.as_str(), "[DONE]") {
                    self.ended = true;
                    self.buffer = String::new();
                    let last = match &self.last {
                        Some(chunk) => Some(chunk.clone()),
                        None => None,
                    };
                    return Ok(FrameEvent::Finished { last });
                }
                self.buffer.append(payload.as_str());
                match decode_event(self.buffer.as_str()) {
                    None => Ok(FrameEvent::PartialData),
                    Some(Some(chunk)) => {
                        self.buffer = String::new();
                        self.last = Some(chunk.clone());
                        Ok(FrameEvent::Chunk(chunk))
                    },
                    Some(None) => Err(self.fail()),
                }
            },
        }
    }

    /// Takes the next frame of the stream as the bytes that arrived. Bytes that
    /// are not valid UTF-8 end the stream with an [`Error::StringError`];
    /// otherwise the frame is taken as its text.
    pub fn accept_bytes(&mut self, frame: &[u8]) -> (r: Result<FrameEvent, Error>)
        ensures
            !valid_utf8(frame@) ==> (r matches Err(Error::StringError(detail)) && detail@
                == "The frame is not valid UTF-8"@) && final(self)@ == failed(
                old(self)@,
                Seq::empty(),
            ).decoder,
            valid_utf8(frame@) ==> exists|text: &str|
                text.spec_bytes() == frame@ && final(self)@ == (#[trigger] accepted(
                    old(self)@,
                    text@,
                )).decoder && outcome_of(r) == Some(accepted(old(self)@, text@).outcome),
    {
        match utf8_text(frame) {
            Some(text) => {
                let r = self.accept(text);
                proof {
                    assert(final(self)@ == accepted(old(self)@, text@).decoder);
                }
                r
            },
            None => {
                self.buffer = String::new();
                self.ended = true;
                Err(Error::StringError("The frame is not valid UTF-8".to_owned()))
            },
        }
    }

    /// Takes the end of the transport. A stream that has not ended by then was
    /// cut off: it ends now, with an [`Error::MalformedStream`].
    pub fn close(&mut self) -> (r: Result<(), Error>)
        ensures
            old(self).ended ==> r is Ok && final(self)@ == old(self)@,
            !old(self).ended ==> (r matches Err(Error::MalformedStream(detail)) && detail@
                == "Stream closed abruptly!"@) && final(self)@ == failed(
                old(self)@,
                "Stream closed abruptly!"@,
            ).decoder,
    {
        if self.ended {
            return Ok(());
        }
        self.buffer = String::new();
        self.ended = true;
        Err(Error::MalformedStream("Stream closed abruptly!".to_owned()))
    }
}

/// A stream ends once: after its end every frame fails and leaves the decoder as
/// it is, and no frame brings an ended stream back.
pub proof fn law_stream_ends_once(decoder: FrameDecoderView, frame: Seq<char>)
    requires
        decoder.ended,
    ensures
        accepted(decoder, frame).decoder == decoder,
        accepted(decoder, frame).outcome is Malformed,
{
}

/// The terminator ends a stream of either kind, whatever came before.
pub proof fn law_terminator_ends_stream(decoder: FrameDecoderView)
    requires
        !decoder.ended,
    ensures
        accepted(decoder, terminator()).decoder.ended,
        decoder.dialect == Dialect::SelfContained ==> accepted(decoder, terminator()).outcome
            == FrameOutcome::Chunk(ResponseChunkView::Done),
        decoder.dialect == Dialect::Fragmented ==> accepted(decoder, terminator()).outcome == (
        FrameOutcome::Finished { last: decoder.last }) && accepted(
            decoder,
            terminator(),
        ).decoder.buffer.len() == 0,
{
    reveal_strlit("[DONE]");
    reveal_strlit("data: ");
    reveal_strlit("data:");
    assert(!"data: "@.is_prefix_of(terminator())) by {
        assert(terminator()[0] == '[');
        assert("data: "@[0] == 'd');
        if "data: "@.is_prefix_of(terminator()) {
            assert(terminator().subrange(0, 6)[0] == "data: "@[0]);
        }
    }
    assert(!"data:"@.is_prefix_of(terminator())) by {
        assert("data:"@[0] == 'd');
        if "data:"@.is_prefix_of(terminator()) {
            assert(terminator().subrange(0, 5)[0] == "data:"@[0]);
        }
    }
}

} // verus!
