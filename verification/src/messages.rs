//! Frames as the client sees them, and what the read loop does with each.

use crate::errors::{payload_view, ClosePayload, ClosePayloadView, Error, ErrorView};
use vstd::prelude::*;

verus! {

/// One frame read from the socket. Only text and close frames carry
/// something that the client reads.
#[derive(Debug, PartialEq, Eq)]
pub enum Message {
    /// A text frame.
    Text(String),
    /// A binary frame.
    Binary,
    /// A ping.
    Ping,
    /// A pong.
    Pong,
    /// A close frame, with the peer's payload if it sent one.
    Close(Option<ClosePayload>),
    /// A raw frame.
    Frame,
}

/// A frame as plain values.
pub enum MessageView {
    Text(Seq<char>),
    Binary,
    Ping,
    Pong,
    Close(Option<ClosePayloadView>),
    Frame,
}

impl View for Message {
    type V = MessageView;

    open spec fn view(&self) -> MessageView {
        match *self {
            Message::Text(text) => MessageView::Text(text@),
            Message::Binary => MessageView::Binary,
            Message::Ping => MessageView::Ping,
            Message::Pong => MessageView::Pong,
            Message::Close(payload) => MessageView::Close(payload_view(payload)),
            Message::Frame => MessageView::Frame,
        }
    }
}

/// What awaiting the next frame came back with: the stream is over (`None`),
/// reading failed with a cause, or a frame arrived.
pub open spec fn read_view(read: Option<Result<Message, String>>) -> Option<
    Result<MessageView, Seq<char>>,
> {
    match read {
        None => None,
        Some(Err(cause)) => Some(Err(cause@)),
        Some(Ok(message)) => Some(Ok(message@)),
    }
}

/// What the loop does after a read.
#[derive(Debug, PartialEq, Eq)]
pub enum Received {
    /// Go on with the next turn.
    Continue,
    /// Decode this text and deliver the event.
    Decode(String),
    /// Stop, with this error.
    Stop(Error),
}

/// The answer to a read as plain values.
pub enum ReceivedView {
    Continue,
    Decode(Seq<char>),
    Stop(ErrorView),
}

impl View for Received {
    type V = ReceivedView;

    open spec fn view(&self) -> ReceivedView {
        match *self {
            Received::Continue => ReceivedView::Continue,
            Received::Decode(text) => ReceivedView::Decode(text@),
            Received::Stop(error) => ReceivedView::Stop(error@),
        }
    }
}

/// What a frame asks for: text that is not empty is to be decoded, a close
/// frame stops the loop with `Disconnected` and the peer's payload, and
/// everything else (empty text, binary, ping, pong, raw frames) is skipped.
pub open spec fn processed(message: MessageView) -> ReceivedView {
    match message {
        MessageView::Text(text) => if text.len() == 0 {
            ReceivedView::Continue
        } else {
            ReceivedView::Decode(text)
        },
        MessageView::Close(payload) => ReceivedView::Stop(ErrorView::Disconnected(payload)),
        _ => ReceivedView::Continue,
    }
}

/// The answer to a read: an exhausted stream lets the loop go on, a failed
/// read stops it with a transport error, and a frame is answered as
/// [`processed`] says.
pub open spec fn received(read: Option<Result<MessageView, Seq<char>>>) -> ReceivedView {
    match read {
        None => ReceivedView::Continue,
        Some(Err(cause)) => ReceivedView::Stop(ErrorView::Transport(cause)),
        Some(Ok(message)) => processed(message),
    }
}

/// Sorts a frame: see [`processed`]. Decoding the text and handing the event
/// to the handler is left to the caller and to `WebSockets::deliver`.
pub fn process_message(message: Message) -> (answer: Received)
    ensures
        answer@ == processed(message@),
{
    match message {
        Message::Text(text) => {
            if text.as_str().is_empty() {
                Received::Continue
            } else {
                Received::Decode(text)
            }
        },
        Message::Close(payload) => Received::Stop(Error::Disconnected(payload)),
        _ => Received::Continue,
    }
}

/// Answers a read: see [`received`].
pub fn on_read(read: Option<Result<Message, String>>) -> (answer: Received)
    ensures
        answer@ == received(read_view(read)),
{
    match read {
        None => Received::Continue,
        Some(Err(cause)) => Received::Stop(Error::Transport(cause)),
        Some(Ok(message)) => process_message(message),
    }
}

} // verus!
