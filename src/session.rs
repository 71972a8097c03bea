//! The interactive session's lifecycle: awaiting a connection, active,
//! shutting down, terminated. Each event from the outside (a startup result,
//! a completed line, an interrupt, a stream failure, the end of the
//! disconnect call) yields the next phase and one action to perform.

use vstd::prelude::*;
use crate::command::{classify_line, line_kind, sendable, LineKind};

verus! {

/// Exit status of a normal shutdown.
pub const EXIT_OK: i32 = 0;

/// Exit status of a failed startup or of a session lost to a stream failure.
pub const EXIT_FAILURE: i32 = 1;

/// Where the session stands.
#[derive(Debug, Clone, Copy, PartialEq, Eq, Structural)]
pub enum Phase {
    AwaitingConnection,
    SessionActive,
    /// Disconnecting; the process will exit with `code`.
    ShuttingDown { code: i32 },
    Terminated { code: i32 },
}

/// Something that happened outside the state machine.
#[derive(Debug, Clone, PartialEq, Eq)]
pub enum Event {
    /// Startup failed before the handshake: a configuration error, the
    /// connection attempts exhausted, or the connect call itself failing.
    StartupFailed(String),
    /// The server answered the connect call.
    Handshake { success: bool, message: String },
    /// The user completed a line.
    Line(String),
    /// The user interrupted, input ended, or reading input failed.
    Interrupted,
    /// The command stream failed while reading or writing.
    StreamFailed(String),
    /// The disconnect call finished, whatever its outcome.
    Disconnected,
}

/// What the caller is to do next.
#[derive(Debug, Clone, PartialEq, Eq)]
pub enum Action {
    /// Nothing.
    Idle,
    /// Show the greeting and open the command stream.
    Begin(String),
    /// Put this command on the outbound queue.
    Send(String),
    /// Close the outbound queue and call disconnect.
    Disconnect,
    /// Show `message`, if any, then exit with `code`.
    Exit { code: i32, message: Option<String> },
}

/// The phase and action that follow `event` in `phase`.
pub open spec fn step(phase: Phase, event: Event) -> (Phase, Action) {
    let idle = (phase, Action::Idle);
    match phase {
        Phase::AwaitingConnection => match event {
            Event::StartupFailed(message) => (
                Phase::Terminated { code: EXIT_FAILURE },
                Action::Exit { code: EXIT_FAILURE, message: Some(message) },
            ),
            Event::Handshake { success, message } => if success {
                (Phase::SessionActive, Action::Begin(message))
            } else {
                (Phase::Terminated { code: EXIT_FAILURE }, Action::Exit { code: EXIT_FAILURE, message: Some(message) })
            },
            _ => idle,
        },
        Phase::SessionActive => match event {
            Event::Line(line) => match line_kind(line) {
                LineKind::Exit => (Phase::ShuttingDown { code: EXIT_OK }, Action::Disconnect),
                LineKind::Blank => idle,
                LineKind::Command(c) => (phase, Action::Send(c)),
            },
            Event::Interrupted => (Phase::ShuttingDown { code: EXIT_OK }, Action::Disconnect),
            Event::StreamFailed(_) => (Phase::ShuttingDown { code: EXIT_FAILURE }, Action::Disconnect),
            _ => idle,
        },
        Phase::ShuttingDown { code } => match event {
            Event::Disconnected => (
                Phase::Terminated { code },
                Action::Exit { code, message: None },
            ),
            _ => idle,
        },
        Phase::Terminated { .. } => idle,
    }
}

/// The interactive loop's state machine.
pub struct ShellLoop {
    pub phase: Phase,
}

impl ShellLoop {
    pub fn new() -> (r: Self)
        ensures
            r.phase == Phase::AwaitingConnection,
    {
        ShellLoop { phase: Phase::AwaitingConnection }
    }

    /// Whether the process is to exit now.
    pub fn is_terminated(&self) -> (r: bool)
        ensures
            r == (self.phase is Terminated),
    {
        matches!(self.phase, Phase::Terminated { .. })
    }

    /// Takes one event and returns the action to perform.
    pub fn on_event(&mut self, event: Event) -> (a: Action)
        ensures
            (final(self).phase, a) == step(old(self).phase, event),
    {
        match self.phase {
            Phase::AwaitingConnection => match event {
                Event::StartupFailed(message) => {
                    self.phase = Phase::Terminated { code: EXIT_FAILURE };
                    Action::Exit { code: EXIT_FAILURE, message: Some(message) }
                },
                Event::Handshake { success, message } => {
                    if success {
                        self.phase = Phase::SessionActive;
                        Action::Begin(message)
                    } else {
                        self.phase = Phase::Terminated { code: EXIT_FAILURE };
                        Action::Exit { code: EXIT_FAILURE, message: Some(message) }
                    }
                },
                _ => Action::Idle,
            },
            Phase::SessionActive => match event {
                Event::Line(line) => match classify_line(line) {
                    LineKind::Exit => {
                        self.phase = Phase::ShuttingDown { code: EXIT_OK };
                        Action::Disconnect
                    },
                    LineKind::Blank => Action::Idle,
                    LineKind::Command(c) => Action::Send(c),
                },
                Event::Interrupted => {
                    self.phase = Phase::ShuttingDown { code: EXIT_OK };
                    Action::Disconnect
                },
                Event::StreamFailed(_) => {
                    self.phase = Phase::ShuttingDown { code: EXIT_FAILURE };
                    Action::Disconnect
                },
                _ => Action::Idle,
            },
            Phase::ShuttingDown { code } => match event {
                Event::Disconnected => {
                    self.phase = Phase::Terminated { code };
                    Action::Exit { code, message: None }
                },
                _ => Action::Idle,
            },
            Phase::Terminated { .. } => Action::Idle,
        }
    }
}

/// The phase reached and the actions taken when the events arrive in order,
/// starting from `AwaitingConnection`.
pub open spec fn run(events: Seq<Event>) -> (Phase, Seq<Action>)
    decreases events.len(),
{
    if events.len() == 0 {
        (Phase::AwaitingConnection, Seq::empty())
    } else {
        let (p, actions) = run(events.drop_last());
        let (q, a) = step(p, events.last());
        (q, actions.push(a))
    }
}

/// How many of the actions satisfy `f`.
pub open spec fn count_of(actions: Seq<Action>, f: spec_fn(Action) -> bool) -> nat
    decreases actions.len(),
{
    if actions.len() == 0 {
        0
    } else {
        count_of(actions.drop_last(), f) + if f(actions.last()) { 1nat } else { 0nat }
    }
}

pub open spec fn is_disconnect(a: Action) -> bool {
    a is Disconnect
}

pub open spec fn is_begin(a: Action) -> bool {
    a is Begin
}

proof fn run_len(events: Seq<Event>)
    ensures
        run(events).1.len() == events.len(),
    decreases events.len(),
{
    if events.len() > 0 {
        run_len(events.drop_last());
    }
}

proof fn run_counts(events: Seq<Event>)
    ensures
        ({
            let (p, actions) = run(events);
            let b = count_of(actions, |a: Action| is_begin(a));
            let d = count_of(actions, |a: Action| is_disconnect(a));
            &&& p is AwaitingConnection ==> b == 0 && d == 0
            &&& p is SessionActive ==> b == 1 && d == 0
            &&& p is ShuttingDown ==> b == 1 && d == 1
            &&& p is Terminated ==> (b == 0 && d == 0) || (b == 1 && d == 1)
        }),
    decreases events.len(),
{
    if events.len() > 0 {
        run_counts(events.drop_last());
        let (p, actions) = run(events.drop_last());
        let (q, a) = step(p, events.last());
        assert(actions.push(a).drop_last() =~= actions);
    }
}

/// A session that reached `SessionActive` is disconnected exactly once
/// whichever way it shuts down (the exit line, an interrupt, a stream
/// failure); one that never did is not disconnected at all, and no session
/// is begun or disconnected twice.
pub proof fn disconnect_once_per_session(events: Seq<Event>)
    ensures
        ({
            let (p, actions) = run(events);
            let b = count_of(actions, |a: Action| is_begin(a));
            let d = count_of(actions, |a: Action| is_disconnect(a));
            &&& b <= 1
            &&& d <= b
            &&& (p is ShuttingDown || p is Terminated) && b == 1 ==> d == 1
            &&& p is AwaitingConnection || p is SessionActive ==> d == 0
        }),
{
    run_counts(events);
}

proof fn run_sends(events: Seq<Event>)
    ensures
        run(events).1.len() == events.len(),
        forall|i: int| 0 <= i < events.len() && run(events).1[i] is Send ==> {
            let c = run(events).1[i]->Send_0;
            &&& events[i] == Event::Line(c)
            &&& sendable(c@)
        },
    decreases events.len(),
{
    run_len(events);
    if events.len() > 0 {
        run_sends(events.drop_last());
        let (p, actions) = run(events.drop_last());
        let (q, a) = step(p, events.last());
        assert forall|i: int| 0 <= i < events.len() && run(events).1[i] is Send implies {
            let c = run(events).1[i]->Send_0;
            &&& events[i] == Event::Line(c)
            &&& sendable(c@)
        } by {
            if i < events.len() - 1 {
                assert(run(events).1[i] == actions[i]);
                assert(events[i] == events.drop_last()[i]);
            } else {
                assert(run(events).1[i] == a);
                if let Event::Line(line) = events.last() {
                    let t = crate::command::trimmed(line@);
                    assert(line_kind(line) == crate::command::kind_of(line, t));
                }
            }
        }
    }
}

/// Only lines are sent, each as typed and at the point it was typed, and
/// never one that is blank after trimming or that is the exit sentinel.
pub proof fn only_sendable_lines_are_sent(events: Seq<Event>)
    ensures
        forall|i: int| 0 <= i < run(events).1.len() && run(events).1[i] is Send ==> {
            let c = run(events).1[i]->Send_0;
            &&& events[i] == Event::Line(c)
            &&& sendable(c@)
        },
{
    run_sends(events);
}

} // verus!
