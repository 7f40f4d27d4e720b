//! The pipeline websocket: what each frame the connection receives means. The
//! connection itself lives with the caller, which waits for frames and hands them
//! here.
pub mod event;

use vstd::prelude::*;
use crate::text::{concat, owned, utf8};
use crate::websocket::event::{PipelineMessage, PipelineParseError};

verus! {

/// A frame the websocket received.
#[derive(Debug, Clone, PartialEq)]
pub enum Frame {
    Text(String),
    Binary(Vec<u8>),
    /// A ping, a pong or a raw frame.
    Control,
    Close,
}

/// What a received frame calls for.
#[derive(Debug, Clone, PartialEq)]
pub enum FrameText {
    /// Wait for the next frame.
    Skip,
    /// The remote closed the connection.
    Closed,
    /// A message to parse.
    Text(String),
    /// A binary frame that is not UTF-8 text, with the decoder's complaint.
    NotText(String),
}

/// Why the connection yields no message.
#[derive(Debug, Clone, PartialEq)]
pub enum ConnectionFailure {
    Parse(PipelineParseError),
    /// The pipeline sent an error message.
    Remote(String),
    Closed,
}

/// The text of bytes that are UTF-8, or the decoder's complaint.
///
/// Trusted: `std::str::from_utf8`, which accepts exactly the byte strings that are
/// the UTF-8 encoding of some text, and then yields that text. What the complaint
/// says is left unstated.
#[verifier::external_body]
fn utf8_text(bytes: &Vec<u8>) -> (r: Result<String, String>)
    ensures
        match r {
            Ok(s) => utf8(s@) == bytes@,
            Err(_) => forall|s: Seq<char>| #[trigger] utf8(s) != bytes@,
        },
{
    match std::str::from_utf8(bytes.as_slice()) {
        Ok(s) => Ok(s.to_string()),
        Err(e) => Err(e.to_string()),
    }
}

/// What a received frame calls for: text frames and binary frames that hold UTF-8
/// are messages to parse; control frames are skipped; a close frame ends the
/// connection.
pub fn frame_text(frame: Frame) -> (r: FrameText)
    ensures
        match frame {
            Frame::Text(t) => r == FrameText::Text(t),
            Frame::Binary(b) => match r {
                FrameText::Text(t) => utf8(t@) == b@,
                FrameText::NotText(_) => forall|s: Seq<char>| #[trigger] utf8(s) != b@,
                _ => false,
            },
            Frame::Control => r == FrameText::Skip,
            Frame::Close => r == FrameText::Closed,
        },
{
    match frame {
        Frame::Text(t) => FrameText::Text(t),
        Frame::Binary(b) => match utf8_text(&b) {
            Ok(t) => FrameText::Text(t),
            Err(e) => FrameText::NotText(e),
        },
        Frame::Control => FrameText::Skip,
        Frame::Close => FrameText::Closed,
    }
}

/// The parse error a binary frame that is not UTF-8 reads as.
pub fn not_text_error(complaint: &str) -> (r: PipelineParseError)
    ensures
        r matches PipelineParseError::Json(m) && m@ == "binary message is not UTF-8: "@ + complaint@,
{
    PipelineParseError::Json(concat(&owned("binary message is not UTF-8: "), complaint))
}

/// What the connection yields for a parsed message: events pass, an error message
/// from the pipeline and a parse error fail.
pub fn message_result(parsed: Result<PipelineMessage, PipelineParseError>) -> (r: Result<
    PipelineMessage,
    ConnectionFailure,
>)
    ensures
        match parsed {
            Ok(PipelineMessage::Event(ev)) => r == Ok::<PipelineMessage, ConnectionFailure>(PipelineMessage::Event(ev)),
            Ok(PipelineMessage::Error(e)) => r matches Err(ConnectionFailure::Remote(m)) && m == e.err,
            Err(p) => r == Err::<PipelineMessage, ConnectionFailure>(ConnectionFailure::Parse(p)),
        },
{
    match parsed {
        Ok(PipelineMessage::Event(ev)) => Ok(PipelineMessage::Event(ev)),
        Ok(PipelineMessage::Error(e)) => Err(ConnectionFailure::Remote(e.err)),
        Err(p) => Err(ConnectionFailure::Parse(p)),
    }
}

} // verus!
