//! The connection handler as a protocol: what to ask of a connection next,
//! given how it answered the last request.
//!
//! The handler itself touches no socket. It names one operation at a time,
//! the caller performs it and reports the outcome, and the handler names the
//! next. A connection is read once, answered once, flushed and closed; any
//! failure closes it at once.

use vstd::prelude::*;
use crate::response::{response, response_bytes, READ_BUFFER_SIZE};

verus! {

/// How the handling of a connection ended.
#[derive(Clone, Copy, Debug, PartialEq, Eq, Structural)]
pub enum Ending {
    /// The response was written and flushed.
    Served,
    /// The read failed; nothing was written.
    ReadFailed,
    /// The write failed.
    WriteFailed,
    /// The response was written, but flushing it failed.
    FlushFailed,
}

/// Where a handler stands: the operation it is waiting on, or how it ended.
#[derive(Clone, Copy, Debug, PartialEq, Eq, Structural)]
pub enum Stage {
    /// The single read of the request is outstanding.
    Reading,
    /// The write of the response is outstanding.
    Writing,
    /// The flush is outstanding.
    Flushing,
    /// The connection is to be closed; nothing more is asked of it.
    Closed(Ending),
}

/// What the connection reported for the operation last asked of it.
#[derive(Clone, Debug, PartialEq, Eq)]
pub enum IoOutcome {
    /// The operation went through. The bytes are those that a read delivered;
    /// a write or a flush delivers none.
    Completed(Vec<u8>),
    /// The operation failed.
    Failed,
}

/// What the handler asks of the connection next.
#[derive(Clone, Debug, PartialEq, Eq)]
pub enum Action {
    /// Read once, at most `limit` bytes.
    Read { limit: usize },
    /// Write these bytes.
    Write { bytes: Vec<u8> },
    /// Flush what was written.
    Flush,
    /// Close the connection; `ending` says why.
    Close { ending: Ending },
}

/// An [`Action`] with its payload as a sequence.
pub enum ActionView {
    Read { limit: nat },
    Write { bytes: Seq<u8> },
    Flush,
    Close { ending: Ending },
}

impl View for Action {
    type V = ActionView;

    open spec fn view(&self) -> ActionView {
        match *self {
            Action::Read { limit } => ActionView::Read { limit: limit as nat },
            Action::Write { bytes } => ActionView::Write { bytes: bytes@ },
            Action::Flush => ActionView::Flush,
            Action::Close { ending } => ActionView::Close { ending },
        }
    }
}

impl IoOutcome {
    /// Whether the operation went through.
    pub open spec fn completed(self) -> bool {
        self is Completed
    }
}

/// The first thing asked of a fresh connection: one read of bounded size.
pub open spec fn opening() -> (Stage, ActionView) {
    (Stage::Reading, ActionView::Read { limit: READ_BUFFER_SIZE as nat })
}

/// The handler's transition. An operation that went through leads to the
/// next one, read to write to flush to close; a failure closes the
/// connection. Of `outcome` only success or failure counts: what a read
/// delivered is never looked at.
pub open spec fn next(stage: Stage, outcome: IoOutcome) -> (Stage, ActionView) {
    match stage {
        Stage::Reading => if outcome.completed() {
            (Stage::Writing, ActionView::Write { bytes: response_bytes() })
        } else {
            closing(Ending::ReadFailed)
        },
        Stage::Writing => if outcome.completed() {
            (Stage::Flushing, ActionView::Flush)
        } else {
            closing(Ending::WriteFailed)
        },
        Stage::Flushing => if outcome.completed() {
            closing(Ending::Served)
        } else {
            closing(Ending::FlushFailed)
        },
        Stage::Closed(ending) => closing(ending),
    }
}

/// The closed stage for `ending`, with the action that closes the connection.
pub open spec fn closing(ending: Ending) -> (Stage, ActionView) {
    (Stage::Closed(ending), ActionView::Close { ending })
}

/// Starts the handling of a freshly accepted connection.
pub fn start() -> (first: (Stage, Action))
    ensures
        (first.0, first.1@) == opening(),
{
    (Stage::Reading, Action::Read { limit: READ_BUFFER_SIZE })
}

/// Takes the outcome of the operation that `stage` was waiting on and says
/// what comes next.
pub fn step(stage: Stage, outcome: &IoOutcome) -> (then: (Stage, Action))
    ensures
        (then.0, then.1@) == next(stage, *outcome),
{
    let went_through = match outcome {
        IoOutcome::Completed(_) => true,
        IoOutcome::Failed => false,
    };
    match stage {
        Stage::Reading => if went_through {
            (Stage::Writing, Action::Write { bytes: response() })
        } else {
            close(Ending::ReadFailed)
        },
        Stage::Writing => if went_through {
            (Stage::Flushing, Action::Flush)
        } else {
            close(Ending::WriteFailed)
        },
        Stage::Flushing => if went_through {
            close(Ending::Served)
        } else {
            close(Ending::FlushFailed)
        },
        Stage::Closed(ending) => close(ending),
    }
}

/// What is reported of a connection that ended as `ending` says: a sentence
/// for each failure, and nothing for one that was served.
pub open spec fn report(ending: Ending) -> Option<Seq<char>> {
    match ending {
        Ending::Served => None,
        Ending::ReadFailed => Some("Failed to read from stream"@),
        Ending::WriteFailed => Some("Failed to write to stream"@),
        Ending::FlushFailed => Some("Failed to flush stream"@),
    }
}

/// The line to log for a connection that ended as `ending` says, if any.
pub fn failure_report(ending: Ending) -> (line: Option<&'static str>)
    ensures
        line is Some <==> ending != Ending::Served,
        match line {
            Some(text) => report(ending) == Some(text@),
            None => report(ending) is None,
        },
{
    match ending {
        Ending::Served => None,
        Ending::ReadFailed => Some("Failed to read from stream"),
        Ending::WriteFailed => Some("Failed to write to stream"),
        Ending::FlushFailed => Some("Failed to flush stream"),
    }
}

fn close(ending: Ending) -> (then: (Stage, Action))
    ensures
        (then.0, then.1@) == closing(ending),
{
    (Stage::Closed(ending), Action::Close { ending })
}

/// Where the handler stands, and what it asks, after the operations asked so
/// far went as `outcomes` say, in order, starting from `at`.
pub open spec fn after(at: (Stage, ActionView), outcomes: Seq<IoOutcome>) -> (Stage, ActionView)
    decreases outcomes.len(),
{
    if outcomes.len() == 0 {
        at
    } else {
        after(next(at.0, outcomes[0]), outcomes.drop_first())
    }
}

/// The bytes that `action` puts on the wire when it ends in `outcome`: the
/// payload of a write that went through, and nothing otherwise.
pub open spec fn sent(action: ActionView, outcome: IoOutcome) -> Seq<u8> {
    match action {
        ActionView::Write { bytes } => if outcome.completed() {
            bytes
        } else {
            Seq::empty()
        },
        _ => Seq::empty(),
    }
}

/// All the bytes put on the wire from `at` on, while the operations asked go
/// as `outcomes` say.
pub open spec fn written_from(at: (Stage, ActionView), outcomes: Seq<IoOutcome>) -> Seq<u8>
    decreases outcomes.len(),
{
    if outcomes.len() == 0 {
        Seq::empty()
    } else {
        sent(at.1, outcomes[0]) + written_from(next(at.0, outcomes[0]), outcomes.drop_first())
    }
}

/// All the bytes that one connection is sent, from its acceptance on.
pub open spec fn written(outcomes: Seq<IoOutcome>) -> Seq<u8> {
    written_from(opening(), outcomes)
}

/// What a request holds makes no difference: two outcomes that agree on
/// success or failure lead to the same stage and the same action. An empty
/// request, a short one and one that fills the buffer are answered alike.
pub proof fn lemma_request_is_never_inspected(stage: Stage, a: IoOutcome, b: IoOutcome)
    requires
        a.completed() == b.completed(),
    ensures
        next(stage, a) == next(stage, b),
{
}

/// A connection is read exactly once: the read is the first thing asked, of
/// no more than the buffer holds, and no transition asks for another.
pub proof fn lemma_reads_once(stage: Stage, outcome: IoOutcome)
    ensures
        opening().1 == (ActionView::Read { limit: 1024 }),
        !(next(stage, outcome).1 is Read),
{
}

/// A handler asks at most three things of its connection: after three
/// outcomes, whatever they were, it is closed, and it stays closed.
pub proof fn lemma_closes_after_three(outcomes: Seq<IoOutcome>)
    requires
        outcomes.len() >= 3,
    ensures
        after(opening(), outcomes).0 is Closed,
        after(opening(), outcomes).1 is Close,
{
    let first = next(Stage::Reading, outcomes[0]);
    let rest = outcomes.drop_first();
    let second = next(first.0, rest[0]);
    let rest = rest.drop_first();
    let third = next(second.0, rest[0]);
    lemma_closed_stays_closed(third, rest.drop_first());
    reveal_with_fuel(after, 4);
}

/// From a closed handler nothing more comes: it stays as it is and nothing is
/// written.
pub proof fn lemma_closed_stays_closed(at: (Stage, ActionView), outcomes: Seq<IoOutcome>)
    requires
        at.0 matches Stage::Closed(ending) && at == closing(ending),
    ensures
        after(at, outcomes) == at,
        written_from(at, outcomes) == Seq::<u8>::empty(),
    decreases outcomes.len(),
{
    if outcomes.len() > 0 {
        lemma_closed_stays_closed(at, outcomes.drop_first());
    }
}

/// What a connection is sent is all or nothing. If its read and its write
/// both went through, it was sent the response, byte for byte and once,
/// whatever the request held and however the flush went. In every other case
/// it was sent nothing.
pub proof fn lemma_written_is_the_response_or_nothing(outcomes: Seq<IoOutcome>)
    ensures
        written(outcomes) == if outcomes.len() >= 2 && outcomes[0].completed()
            && outcomes[1].completed() {
            response_bytes()
        } else {
            Seq::empty()
        },
{
    reveal_with_fuel(written_from, 4);
    if outcomes.len() >= 3 {
        let first = next(Stage::Reading, outcomes[0]);
        let rest = outcomes.drop_first();
        let second = next(first.0, rest[0]);
        let rest = rest.drop_first();
        let third = next(second.0, rest[0]);
        lemma_closed_stays_closed(third, rest.drop_first());
    }
}

/// A read that fails ends the handling quietly: the connection is closed,
/// nothing is written to it, and the handler has nothing more to ask.
pub proof fn lemma_failed_read_closes_quietly(outcomes: Seq<IoOutcome>)
    requires
        outcomes.len() >= 1,
        !outcomes[0].completed(),
    ensures
        next(Stage::Reading, outcomes[0]) == closing(Ending::ReadFailed),
        after(opening(), outcomes) == closing(Ending::ReadFailed),
        written(outcomes) == Seq::<u8>::empty(),
{
    lemma_closed_stays_closed(closing(Ending::ReadFailed), outcomes.drop_first());
}


} // verus!
