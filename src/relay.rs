use vstd::prelude::*;
use vstd::utf8::{decode_utf8, valid_utf8};

use crate::text::{owned, push_str, utf8_text};

verus! {

/// The two stream kinds; they differ in wiring and in how a failure ends.
#[derive(Debug, Clone, Copy, PartialEq, Eq)]
pub enum StreamKind {
    Syslog,
    Stdout,
}

/// What the relaying task observed at the top of one iteration.
#[derive(Debug)]
pub enum RelayInput {
    /// The session's handle was found cancelled.
    Cancelled,
    /// A whole message was read (syslog relay).
    Line(String),
    /// A chunk of bytes was read (stdio socket); an empty chunk is the end
    /// of the stream.
    Chunk(Vec<u8>),
    /// The source reported the end of the stream.
    Ended,
    /// The read failed, with the cause.
    ReadFailed(String),
    /// The sink refused the last event.
    SinkFailed,
}

/// An event handed to the sink.
#[derive(Debug, Clone)]
pub enum Emitted {
    /// A relayed message.
    Message(String),
    /// The terminal event after a read failure, distinct from a message.
    Terminal(String),
}

/// The content of an event, as contracts see it.
pub enum RelayEvent {
    Message(Seq<char>),
    Terminal(Seq<char>),
}

impl View for Emitted {
    type V = RelayEvent;

    open spec fn view(&self) -> RelayEvent {
        match self {
            Emitted::Message(s) => RelayEvent::Message(s@),
            Emitted::Terminal(s) => RelayEvent::Terminal(s@),
        }
    }
}

/// The outcome of one iteration: an event to emit, if any, and whether the
/// task keeps relaying.
pub struct RelayStep {
    pub emit: Option<Emitted>,
    pub running: bool,
}

/// Prefix of the terminal event of a syslog session.
pub const SYSLOG_FAILURE_PREFIX: &'static str = "Error reading syslog: ";

/// The terminal event of a stdout session.
pub const STDOUT_DONE: &'static str = "stdout.done";

/// The text of the terminal event after a read failure with `cause`.
pub open spec fn terminal_text(kind: StreamKind, cause: Seq<char>) -> Seq<char> {
    match kind {
        StreamKind::Syslog => SYSLOG_FAILURE_PREFIX@ + cause,
        StreamKind::Stdout => STDOUT_DONE@,
    }
}

/// One iteration of a relaying task: whether it keeps running, and the
/// event it emits. A stopped task does nothing more. Cancellation ends the
/// task silently; a message is forwarded; a chunk is forwarded when it is
/// valid UTF-8, and ends the stream when it is empty; a read failure emits
/// one terminal event and ends; a refused event ends a syslog session and
/// is ignored by a stdout session.
pub open spec fn relay_transition(kind: StreamKind, running: bool, input: RelayInput) -> (
    bool,
    Option<RelayEvent>,
) {
    if !running {
        (false, None)
    } else {
        match input {
            RelayInput::Cancelled => (false, None),
            RelayInput::Line(m) => (true, Some(RelayEvent::Message(m@))),
            RelayInput::Chunk(b) => if b@.len() == 0 {
                (false, None)
            } else if valid_utf8(b@) {
                (true, Some(RelayEvent::Message(decode_utf8(b@))))
            } else {
                (true, None)
            },
            RelayInput::Ended => (false, None),
            RelayInput::ReadFailed(e) => (false, Some(RelayEvent::Terminal(terminal_text(kind, e@)))),
            RelayInput::SinkFailed => (kind == StreamKind::Stdout, None),
        }
    }
}

/// Decides one iteration of a relaying task of `kind`.
pub fn relay_step(kind: StreamKind, running: bool, input: RelayInput) -> (r: RelayStep)
    ensures
        r.running == relay_transition(kind, running, input).0,
        match relay_transition(kind, running, input).1 {
            Some(ev) => r.emit matches Some(e) && e@ == ev,
            None => r.emit is None,
        },
{
    if !running {
        return RelayStep { emit: None, running: false };
    }
    match input {
        RelayInput::Cancelled => RelayStep { emit: None, running: false },
        RelayInput::Line(m) => RelayStep { emit: Some(Emitted::Message(m)), running: true },
        RelayInput::Chunk(b) => {
            if b.len() == 0 {
                RelayStep { emit: None, running: false }
            } else {
                match utf8_text(b) {
                    Some(s) => RelayStep { emit: Some(Emitted::Message(s)), running: true },
                    None => RelayStep { emit: None, running: true },
                }
            }
        },
        RelayInput::Ended => RelayStep { emit: None, running: false },
        RelayInput::ReadFailed(e) => {
            let text = match kind {
                StreamKind::Syslog => {
                    let mut t = owned(SYSLOG_FAILURE_PREFIX);
                    push_str(&mut t, e.as_str());
                    t
                },
                StreamKind::Stdout => owned(STDOUT_DONE),
            };
            RelayStep { emit: Some(Emitted::Terminal(text)), running: false }
        },
        RelayInput::SinkFailed => RelayStep {
            emit: None,
            running: match kind {
                StreamKind::Syslog => false,
                StreamKind::Stdout => true,
            },
        },
    }
}

/// The events that a task of `kind`, starting in state `running`, emits
/// while it observes `inputs` in order.
pub open spec fn relay_trace(kind: StreamKind, running: bool, inputs: Seq<RelayInput>) -> Seq<
    RelayEvent,
>
    decreases inputs.len(),
{
    if inputs.len() == 0 {
        Seq::empty()
    } else {
        let (next, ev) = relay_transition(kind, running, inputs[0]);
        let rest = relay_trace(kind, next, inputs.drop_first());
        match ev {
            Some(e) => seq![e] + rest,
            None => rest,
        }
    }
}

/// Whether a task of `kind` that starts in state `running` is still
/// relaying after observing `inputs`.
pub open spec fn relay_running(kind: StreamKind, running: bool, inputs: Seq<RelayInput>) -> bool
    decreases inputs.len(),
{
    if inputs.len() == 0 {
        running
    } else {
        relay_running(kind, relay_transition(kind, running, inputs[0]).0, inputs.drop_first())
    }
}

/// A task that has stopped emits nothing more.
pub proof fn lemma_stopped_is_silent(kind: StreamKind, inputs: Seq<RelayInput>)
    ensures
        relay_trace(kind, false, inputs) == Seq::<RelayEvent>::empty(),
    decreases inputs.len(),
{
    if inputs.len() > 0 {
        lemma_stopped_is_silent(kind, inputs.drop_first());
    }
}

/// The events of two runs of inputs are those of the first run followed by
/// those of the second, from the state the first left.
pub proof fn lemma_trace_split(
    kind: StreamKind,
    running: bool,
    a: Seq<RelayInput>,
    b: Seq<RelayInput>,
)
    ensures
        relay_trace(kind, running, a + b) == relay_trace(kind, running, a) + relay_trace(
            kind,
            relay_running(kind, running, a),
            b,
        ),
    decreases a.len(),
{
    if a.len() == 0 {
        assert(a + b =~= b);
    } else {
        let next = relay_transition(kind, running, a[0]).0;
        assert((a + b).drop_first() =~= a.drop_first() + b);
        lemma_trace_split(kind, next, a.drop_first(), b);
        match relay_transition(kind, running, a[0]).1 {
            Some(e) => {
                assert(seq![e] + (relay_trace(kind, next, a.drop_first()) + relay_trace(
                    kind,
                    relay_running(kind, next, a.drop_first()),
                    b,
                )) =~= (seq![e] + relay_trace(kind, next, a.drop_first())) + relay_trace(
                    kind,
                    relay_running(kind, next, a.drop_first()),
                    b,
                ));
            },
            None => {},
        }
    }
}

/// Once the task observes its cancellation, no further event of that
/// session occurs: whatever it would read afterwards, it emits exactly
/// what it emitted before the cancellation.
pub proof fn lemma_no_event_after_cancel(
    kind: StreamKind,
    running: bool,
    before: Seq<RelayInput>,
    after: Seq<RelayInput>,
)
    ensures
        relay_trace(kind, running, before + seq![RelayInput::Cancelled] + after) == relay_trace(
            kind,
            running,
            before,
        ),
{
    let mid = relay_running(kind, running, before);
    lemma_trace_split(kind, running, before, seq![RelayInput::Cancelled] + after);
    assert(before + seq![RelayInput::Cancelled] + after =~= before + (seq![
        RelayInput::Cancelled,
    ] + after));
    let tail = seq![RelayInput::Cancelled] + after;
    assert(tail.drop_first() =~= after);
    lemma_stopped_is_silent(kind, after);
    assert(relay_trace(kind, mid, tail) =~= Seq::<RelayEvent>::empty());
    assert(relay_trace(kind, running, before) + Seq::<RelayEvent>::empty() =~= relay_trace(
        kind,
        running,
        before,
    ));
}

/// A message that was read before the cancellation was observed is still
/// delivered, and it is the last event of the session.
pub proof fn lemma_in_flight_delivered(
    kind: StreamKind,
    before: Seq<RelayInput>,
    message: String,
    after: Seq<RelayInput>,
)
    requires
        relay_running(kind, true, before),
    ensures
        relay_trace(
            kind,
            true,
            before + seq![RelayInput::Line(message), RelayInput::Cancelled] + after,
        ) == relay_trace(kind, true, before) + seq![RelayEvent::Message(message@)],
{
    let tail = seq![RelayInput::Line(message), RelayInput::Cancelled] + after;
    assert(before + seq![RelayInput::Line(message), RelayInput::Cancelled] + after =~= before
        + tail);
    lemma_trace_split(kind, true, before, tail);
    let rest = seq![RelayInput::Cancelled] + after;
    assert(tail.drop_first() =~= rest);
    assert(rest.drop_first() =~= after);
    assert(tail[0] == RelayInput::Line(message));
    assert(rest[0] == RelayInput::Cancelled);
    lemma_stopped_is_silent(kind, after);
    assert(relay_trace(kind, true, rest) == relay_trace(kind, false, after));
    assert(relay_trace(kind, true, tail) == seq![RelayEvent::Message(message@)] + relay_trace(
        kind,
        true,
        rest,
    ));
    assert(relay_trace(kind, true, tail) =~= seq![RelayEvent::Message(message@)]);
}

} // verus!
