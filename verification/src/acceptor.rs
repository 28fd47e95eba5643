//! The acceptor loop as a protocol: what to do about the listening socket
//! next, given how the last attempt on it went.
//!
//! Binding happens once and its failure is fatal. After that the acceptor
//! accepts forever: a connection that arrives is dispatched, an accept that
//! fails is reported, and in both cases the loop goes on.

use vstd::prelude::*;
use vstd::string::*;
use crate::dispatch::Mode;

verus! {

/// The address that is bound when nothing else is asked for.
pub const DEFAULT_ADDRESS: &'static str = "127.0.0.1:3000";

/// Exit status after a failed bind.
pub const EXIT_BIND_FAILED: i32 = 1;

/// What precedes the address in the startup line.
pub const STARTUP_PREFIX: &'static str = "Server running on ";

/// Where the acceptor stands.
#[derive(Clone, Copy, Debug, PartialEq, Eq, Structural)]
pub enum Phase {
    /// The bind is outstanding.
    Binding,
    /// The socket listens; an accept is outstanding.
    Accepting,
    /// The bind failed; the process is to exit.
    Halted,
}

/// How the bind or the accept last asked for went.
#[derive(Clone, Copy, Debug, PartialEq, Eq, Structural)]
pub enum Attempt {
    Succeeded,
    Failed,
}

/// What to do next.
#[derive(Clone, Copy, Debug, PartialEq, Eq, Structural)]
pub enum Directive {
    /// Bind the listening socket.
    Bind,
    /// The socket is bound: print the startup line if `announce` is set, then
    /// accept.
    Listen { announce: bool },
    /// Dispatch a handler for the connection just accepted, then accept again.
    Dispatch,
    /// Report the failed accept, then accept again.
    Report,
    /// Exit with this status.
    Exit { status: i32 },
}

/// The first thing an acceptor does.
pub open spec fn opening() -> (Phase, Directive) {
    (Phase::Binding, Directive::Bind)
}

/// The acceptor's transition.
pub open spec fn next(mode: Mode, phase: Phase, attempt: Attempt) -> (Phase, Directive) {
    match phase {
        Phase::Binding => match attempt {
            Attempt::Succeeded => (
                Phase::Accepting,
                Directive::Listen { announce: mode is Unbounded },
            ),
            Attempt::Failed => (Phase::Halted, Directive::Exit { status: EXIT_BIND_FAILED }),
        },
        Phase::Accepting => match attempt {
            Attempt::Succeeded => (Phase::Accepting, Directive::Dispatch),
            Attempt::Failed => (Phase::Accepting, Directive::Report),
        },
        Phase::Halted => (Phase::Halted, Directive::Exit { status: EXIT_BIND_FAILED }),
    }
}

/// Starts an acceptor.
pub fn start() -> (first: (Phase, Directive))
    ensures
        first == opening(),
{
    (Phase::Binding, Directive::Bind)
}

/// Takes the outcome of the attempt that `phase` was waiting on and says what
/// comes next.
pub fn step(mode: Mode, phase: Phase, attempt: Attempt) -> (then: (Phase, Directive))
    ensures
        then == next(mode, phase, attempt),
{
    match phase {
        Phase::Binding => match attempt {
            Attempt::Succeeded => {
                let announce = match mode {
                    Mode::Unbounded => true,
                    Mode::Bounded { .. } => false,
                };
                (Phase::Accepting, Directive::Listen { announce })
            },
            Attempt::Failed => (Phase::Halted, Directive::Exit { status: EXIT_BIND_FAILED }),
        },
        Phase::Accepting => match attempt {
            Attempt::Succeeded => (Phase::Accepting, Directive::Dispatch),
            Attempt::Failed => (Phase::Accepting, Directive::Report),
        },
        Phase::Halted => (Phase::Halted, Directive::Exit { status: EXIT_BIND_FAILED }),
    }
}

/// The line that announces the bound address.
pub fn startup_line(address: &str) -> (line: String)
    ensures
        line@ == STARTUP_PREFIX@ + address@,
{
    String::from_str(STARTUP_PREFIX).concat(address)
}

/// The phase reached from `phase` after `attempts`, in order.
pub open spec fn phase_after(mode: Mode, phase: Phase, attempts: Seq<Attempt>) -> Phase
    decreases attempts.len(),
{
    if attempts.len() == 0 {
        phase
    } else {
        phase_after(mode, next(mode, phase, attempts[0]).0, attempts.drop_first())
    }
}

/// The directives given from `phase` in answer to `attempts`, one for each.
pub open spec fn directives(mode: Mode, phase: Phase, attempts: Seq<Attempt>) -> Seq<Directive>
    decreases attempts.len(),
{
    if attempts.len() == 0 {
        Seq::empty()
    } else {
        let (then, directive) = next(mode, phase, attempts[0]);
        seq![directive] + directives(mode, then, attempts.drop_first())
    }
}

/// Once the socket listens the loop never ends: whatever the accepts do,
/// however many fail, the acceptor is still accepting.
pub proof fn lemma_accepting_never_stops(mode: Mode, attempts: Seq<Attempt>)
    ensures
        phase_after(mode, Phase::Accepting, attempts) == Phase::Accepting,
    decreases attempts.len(),
{
    if attempts.len() > 0 {
        lemma_accepting_never_stops(mode, attempts.drop_first());
    }
}

/// While accepting, every attempt gets its own directive: a connection that
/// arrived is dispatched, whatever came before it and however many there
/// were, and a failed accept is reported. Nothing is dropped, and neither
/// mode sets a limit.
pub proof fn lemma_every_connection_is_dispatched(mode: Mode, attempts: Seq<Attempt>)
    ensures
        directives(mode, Phase::Accepting, attempts).len() == attempts.len(),
        forall|i: int|
            0 <= i < attempts.len() ==> #[trigger] directives(mode, Phase::Accepting, attempts)[i]
                == if attempts[i] == Attempt::Succeeded {
                Directive::Dispatch
            } else {
                Directive::Report
            },
    decreases attempts.len(),
{
    if attempts.len() > 0 {
        let rest = attempts.drop_first();
        lemma_every_connection_is_dispatched(mode, rest);
        assert forall|i: int| 0 <= i < attempts.len() implies #[trigger] directives(
            mode,
            Phase::Accepting,
            attempts,
        )[i] == if attempts[i] == Attempt::Succeeded {
            Directive::Dispatch
        } else {
            Directive::Report
        } by {
            if i > 0 {
                assert(rest[i - 1] == attempts[i]);
            }
        }
    }
}

/// A failed bind is final: the acceptor halts with a non-zero exit status and
/// never accepts.
pub proof fn lemma_failed_bind_is_fatal(mode: Mode, attempts: Seq<Attempt>)
    ensures
        next(mode, Phase::Binding, Attempt::Failed) == (
            Phase::Halted,
            Directive::Exit { status: EXIT_BIND_FAILED },
        ),
        EXIT_BIND_FAILED != 0,
        phase_after(mode, Phase::Halted, attempts) == Phase::Halted,
    decreases attempts.len(),
{
    if attempts.len() > 0 {
        lemma_failed_bind_is_fatal(mode, attempts.drop_first());
    }
}

} // verus!
