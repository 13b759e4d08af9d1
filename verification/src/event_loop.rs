//! The read loop, turn by turn.
//!
//! A turn first looks at the cancellation flag, then, if a connection is
//! held, awaits one frame, and has it decoded and handled. The functions here
//! say how a turn ends given what it met, and the laws at the end say what
//! follows for the loop as a whole.

use crate::errors::{ClosePayloadView, Error, ErrorView};
use crate::messages::{received, MessageView, ReceivedView};
use vstd::prelude::*;

verus! {

/// What a turn of the loop begins with.
#[derive(Debug, Clone, Copy, PartialEq, Eq, Structural)]
pub enum LoopStep {
    /// The flag is cleared: the loop ends, without an error.
    Finish,
    /// No connection is held: the turn does nothing, and the loop goes on.
    Idle,
    /// Await the next frame.
    Receive,
}

/// How a turn begins: the flag is looked at first, once, before anything is
/// awaited.
pub open spec fn next_step(running: bool, connected: bool) -> LoopStep {
    if !running {
        LoopStep::Finish
    } else if !connected {
        LoopStep::Idle
    } else {
        LoopStep::Receive
    }
}

/// Whether a text decoded, as plain values: the event itself plays no part.
pub open spec fn decoded_view<WE>(decoded: Result<WE, String>) -> Result<(), Seq<char>> {
    match decoded {
        Ok(_) => Ok(()),
        Err(cause) => Err(cause@),
    }
}

/// What comes of a text: a decode error where it did not decode, else the
/// handler's verdict, unchanged.
pub open spec fn delivery(decoded: Result<(), Seq<char>>, verdict: Result<(), ErrorView>) -> Result<
    (),
    ErrorView,
> {
    match decoded {
        Err(cause) => Err(ErrorView::Decode(cause)),
        Ok(()) => verdict,
    }
}

/// `verdict` is what the handler said to the decoded event, where there is
/// one; where the text did not decode, the handler is not asked, and any
/// verdict will do.
pub open spec fn verdict_of<WE, H: FnMut(WE) -> Result<(), Error>>(
    handler: H,
    decoded: Result<WE, String>,
    verdict: Result<(), Error>,
) -> bool {
    decoded matches Ok(event) ==> call_ensures(handler, (event,), verdict)
}

/// All that one turn of the loop meets.
pub struct Turn {
    /// The flag, as read at the start of the turn.
    pub running: bool,
    /// What awaiting the next frame came back with.
    pub read: Option<Result<MessageView, Seq<char>>>,
    /// Whether the text of the frame decoded.
    pub decoded: Result<(), Seq<char>>,
    /// What the handler said to the event.
    pub verdict: Result<(), ErrorView>,
}

/// Whether the turn gets as far as asking the handler.
pub open spec fn handler_asked(connected: bool, turn: Turn) -> bool {
    &&& next_step(turn.running, connected) == LoopStep::Receive
    &&& received(turn.read) is Decode
    &&& turn.decoded is Ok
}

/// How the turn ends the loop: `None` where the loop goes on.
pub open spec fn turn_exit(connected: bool, turn: Turn) -> Option<Result<(), ErrorView>> {
    match next_step(turn.running, connected) {
        LoopStep::Finish => Some(Ok(())),
        LoopStep::Idle => None,
        LoopStep::Receive => match received(turn.read) {
            ReceivedView::Continue => None,
            ReceivedView::Stop(error) => Some(Err(error)),
            ReceivedView::Decode(_) => match delivery(turn.decoded, turn.verdict) {
                Ok(()) => None,
                Err(error) => Some(Err(error)),
            },
        },
    }
}

/// Where and how the loop ends on these turns: the index of its last turn and
/// its result, or `None` where it is still running after all of them.
pub open spec fn loop_exit(connected: bool, turns: Seq<Turn>) -> Option<(nat, Result<(), ErrorView>)>
    decreases turns.len(),
{
    if turns.len() == 0 {
        None
    } else {
        match loop_exit(connected, turns.drop_last()) {
            Some(exit) => Some(exit),
            None => match turn_exit(connected, turns.last()) {
                Some(result) => Some(((turns.len() - 1) as nat, result)),
                None => None,
            },
        }
    }
}

/// The loop ends with the first turn that ends it: whatever comes after that
/// turn plays no part.
pub proof fn lemma_loop_ends_at_first_exit(
    connected: bool,
    turns: Seq<Turn>,
    i: int,
    result: Result<(), ErrorView>,
)
    requires
        0 <= i < turns.len(),
        loop_exit(connected, turns.take(i)) is None,
        turn_exit(connected, turns[i]) == Some(result),
    ensures
        loop_exit(connected, turns) == Some((i as nat, result)),
    decreases turns.len(),
{
    if i == turns.len() - 1 {
        assert(turns.drop_last() =~= turns.take(i));
    } else {
        assert(turns.drop_last().take(i) =~= turns.take(i));
        lemma_loop_ends_at_first_exit(connected, turns.drop_last(), i, result);
    }
}

/// An empty text frame is skipped: the handler is not asked, the turn ends
/// without an error, and the loop goes on, whatever a decoder or the handler
/// would have said.
pub proof fn law_empty_text_is_skipped(connected: bool, turn: Turn)
    requires
        turn.running,
        turn.read == Some(Ok::<MessageView, Seq<char>>(MessageView::Text(Seq::empty()))),
    ensures
        !handler_asked(connected, turn),
        turn_exit(connected, turn) is None,
{
}

/// A close frame ends the loop with `Disconnected` and the peer's payload,
/// whatever the handler would have said, and no later turn is taken.
pub proof fn law_close_frame_stops(
    turns: Seq<Turn>,
    i: int,
    payload: Option<ClosePayloadView>,
)
    requires
        0 <= i < turns.len(),
        loop_exit(true, turns.take(i)) is None,
        turns[i].running,
        turns[i].read == Some(Ok::<MessageView, Seq<char>>(MessageView::Close(payload))),
    ensures
        !handler_asked(true, turns[i]),
        loop_exit(true, turns) == Some(
            (i as nat, Err::<(), ErrorView>(ErrorView::Disconnected(payload))),
        ),
{
    lemma_loop_ends_at_first_exit(true, turns, i, Err(ErrorView::Disconnected(payload)));
}

/// A handler that fails on an event ends the loop in that very turn, with the
/// handler's error unchanged: no later frame is read, decoded or handled.
pub proof fn law_handler_failure_stops(
    connected: bool,
    turns: Seq<Turn>,
    i: int,
    error: ErrorView,
)
    requires
        0 <= i < turns.len(),
        loop_exit(connected, turns.take(i)) is None,
        handler_asked(connected, turns[i]),
        turns[i].verdict == Err::<(), ErrorView>(error),
    ensures
        loop_exit(connected, turns) == Some((i as nat, Err::<(), ErrorView>(error))),
{
    lemma_loop_ends_at_first_exit(connected, turns, i, Err(error));
}

/// A text that does not decode ends the loop in that turn with a decode
/// error, and the handler is not asked.
pub proof fn law_decode_failure_stops(
    connected: bool,
    turns: Seq<Turn>,
    i: int,
    cause: Seq<char>,
)
    requires
        0 <= i < turns.len(),
        loop_exit(connected, turns.take(i)) is None,
        next_step(turns[i].running, connected) == LoopStep::Receive,
        received(turns[i].read) is Decode,
        turns[i].decoded == Err::<(), Seq<char>>(cause),
    ensures
        !handler_asked(connected, turns[i]),
        loop_exit(connected, turns) == Some((i as nat, Err::<(), ErrorView>(ErrorView::Decode(cause)))),
{
    lemma_loop_ends_at_first_exit(connected, turns, i, Err(ErrorView::Decode(cause)));
}

/// A cleared flag ends the loop at the start of the turn, without an error
/// and before anything is read.
pub proof fn law_cancellation_stops(connected: bool, turns: Seq<Turn>, i: int)
    requires
        0 <= i < turns.len(),
        loop_exit(connected, turns.take(i)) is None,
        !turns[i].running,
    ensures
        loop_exit(connected, turns) == Some((i as nat, Ok::<(), ErrorView>(()))),
{
    lemma_loop_ends_at_first_exit(connected, turns, i, Ok(()));
}

/// Without a connection the loop never ends but by the flag.
pub proof fn law_idle_without_connection(turns: Seq<Turn>)
    requires
        forall|i: int| 0 <= i < turns.len() ==> (#[trigger] turns[i]).running,
    ensures
        loop_exit(false, turns) is None,
    decreases turns.len(),
{
    if turns.len() > 0 {
        law_idle_without_connection(turns.drop_last());
    }
}

} // verus!
