use vstd::prelude::*;

use crate::error::DeviceError;
use crate::text::owned;

verus! {

/// The session that is currently relaying, with the number that tells it
/// apart from earlier sessions of the same kind.
pub struct ActiveStream<H> {
    pub id: u64,
    pub handle: H,
}

/// What `start` hands back: the number of the new session, and the handle
/// of the session it displaced, which the caller must cancel.
pub struct StartOutcome<H> {
    pub id: u64,
    pub previous: Option<H>,
}

/// The per-kind stream state (`Idle` or `Streaming`): at most one active
/// cancellation handle at any time. The owner keeps it behind a mutex and
/// holds that only for one call of these methods.
pub struct StreamSession<H> {
    active: Option<ActiveStream<H>>,
    next_id: u64,
}

impl<H> StreamSession<H> {
    /// The handle that is active, if any.
    pub closed spec fn active_handle(&self) -> Option<H> {
        match self.active {
            Some(a) => Some(a.handle),
            None => None,
        }
    }

    /// The number of the active session, if any.
    pub closed spec fn active_id(&self) -> Option<u64> {
        match self.active {
            Some(a) => Some(a.id),
            None => None,
        }
    }

    /// The number that the next `start` will hand out.
    pub closed spec fn upcoming_id(&self) -> u64 {
        self.next_id
    }

    /// A fresh, idle session.
    pub fn new() -> (r: Self)
        ensures
            r.active_handle() is None,
            r.active_id() is None,
    {
        StreamSession { active: None, next_id: 0 }
    }

    /// Installs `handle` as the active session, displacing any session that
    /// was active: the displaced handle is returned for cancellation, and
    /// only the new one remains.
    pub fn start(&mut self, handle: H) -> (r: StartOutcome<H>)
        ensures
            started(*old(self), handle, r, *final(self)),
    {
        let id = self.next_id;
        self.next_id = id.wrapping_add(1);
        let previous = match self.active.take() {
            Some(a) => Some(a.handle),
            None => None,
        };
        self.active = Some(ActiveStream { id, handle });
        StartOutcome { id, previous }
    }

    /// Takes the active handle out, if any, leaving the session idle. Used
    /// to cancel a running session before a new one is set up.
    pub fn take_active(&mut self) -> (r: Option<H>)
        ensures
            took(*old(self), r, *final(self)),
    {
        match self.active.take() {
            Some(a) => Some(a.handle),
            None => None,
        }
    }

    /// Stops the active session: hands its handle back for cancellation.
    /// Stopping is not idempotent: with no active session it fails with
    /// `NoActiveStream` and changes nothing.
    pub fn stop(&mut self) -> (r: Result<H, DeviceError>)
        ensures
            stopped(*old(self), r, *final(self)),
    {
        match self.active.take() {
            Some(a) => Ok(a.handle),
            None => Err(DeviceError::NoActiveStream(owned("no active stream"))),
        }
    }

    /// Whether a session is active; never waits on the relaying task.
    pub fn is_streaming(&self) -> (r: bool)
        ensures
            r == (self.active_handle() is Some),
    {
        self.active.is_some()
    }

    /// Called by the relaying task of session `id` when it ends, by
    /// cancellation, end of stream or a read failure: the session is
    /// cleared if it is still the active one. A session that was already
    /// displaced leaves its successor alone. Returns whether it cleared.
    pub fn finish(&mut self, id: u64) -> (r: bool)
        ensures
            finished(*old(self), id, r, *final(self)),
    {
        let current = match &self.active {
            Some(a) => a.id == id,
            None => false,
        };
        if current {
            self.active = None;
        }
        current
    }
}

/// `after` and `outcome` are what `start(handle)` makes of `before`.
pub open spec fn started<H>(
    before: StreamSession<H>,
    handle: H,
    outcome: StartOutcome<H>,
    after: StreamSession<H>,
) -> bool {
    &&& outcome.id == before.upcoming_id()
    &&& outcome.previous == before.active_handle()
    &&& after.active_handle() == Some(handle)
    &&& after.active_id() == Some(outcome.id)
    &&& after.upcoming_id() == (if before.upcoming_id() == u64::MAX {
        0
    } else {
        (before.upcoming_id() + 1) as u64
    })
}

/// `after` and `r` are what `stop()` makes of `before`: the active handle is
/// handed back, or `NoActiveStream` when there is none; either way nothing
/// is active afterwards.
pub open spec fn stopped<H>(
    before: StreamSession<H>,
    r: Result<H, DeviceError>,
    after: StreamSession<H>,
) -> bool {
    &&& match before.active_handle() {
        Some(h) => r == Ok::<H, DeviceError>(h),
        None => r matches Err(DeviceError::NoActiveStream(_)),
    }
    &&& after.active_handle() is None
    &&& after.active_id() is None
    &&& after.upcoming_id() == before.upcoming_id()
}

/// `after` and `r` are what `take_active()` makes of `before`.
pub open spec fn took<H>(before: StreamSession<H>, r: Option<H>, after: StreamSession<H>) -> bool {
    &&& r == before.active_handle()
    &&& after.active_handle() is None
    &&& after.active_id() is None
    &&& after.upcoming_id() == before.upcoming_id()
}

/// `after` and `r` are what `finish(id)` makes of `before`: the session is
/// cleared exactly when `id` is the active one.
pub open spec fn finished<H>(
    before: StreamSession<H>,
    id: u64,
    r: bool,
    after: StreamSession<H>,
) -> bool {
    &&& r == (before.active_id() == Some(id))
    &&& r ==> after.active_handle() is None && after.active_id() is None
    &&& !r ==> after.active_handle() == before.active_handle() && after.active_id()
        == before.active_id()
    &&& after.upcoming_id() == before.upcoming_id()
}

/// One call on a session, with what it returned.
pub enum SessionOp<H> {
    /// `start(handle)`, which returned the outcome.
    Start(H, StartOutcome<H>),
    /// `take_active()`; the handle returned is cancelled by the caller.
    TakeActive(Option<H>),
    /// `stop()`; a handle returned is cancelled by the caller.
    Stop(Result<H, DeviceError>),
    /// `finish(id)` by the exiting relay task of session `id`.
    Finish(u64, bool),
}

/// Whether `after` is what the call `op` makes of `before`.
pub open spec fn session_step<H>(before: StreamSession<H>, op: SessionOp<H>, after: StreamSession<H>) -> bool {
    match op {
        SessionOp::Start(h, o) => started(before, h, o, after),
        SessionOp::TakeActive(r) => took(before, r, after),
        SessionOp::Stop(r) => stopped(before, r, after),
        SessionOp::Finish(id, r) => finished(before, id, r, after),
    }
}

/// The relay tasks still running with an uncancelled token after `op`, by
/// session number, given those running before it. Every handle that a call
/// hands back is cancelled, so the task of the session active before a
/// start, take or stop stops counting; a start adds its own task; a
/// finishing task leaves.
pub open spec fn live_after<H>(live: Map<u64, H>, before: StreamSession<H>, op: SessionOp<H>) -> Map<
    u64,
    H,
> {
    let displaced = match before.active_id() {
        Some(a) => live.remove(a),
        None => live,
    };
    match op {
        SessionOp::Start(h, o) => displaced.insert(o.id, h),
        SessionOp::TakeActive(_) => displaced,
        SessionOp::Stop(_) => displaced,
        SessionOp::Finish(id, _) => live.remove(id),
    }
}

/// Every live task is the active session, and the slot holds its token.
pub open spec fn single_live<H>(s: StreamSession<H>, live: Map<u64, H>) -> bool {
    forall|id: u64|
        #[trigger] live.contains_key(id) ==> s.active_id() == Some(id) && s.active_handle() == Some(
            live[id],
        )
}

/// Session numbers are not reused: a task that finishes is live, or its
/// number is not the active one.
pub open spec fn no_reuse<H>(live: Map<u64, H>, before: StreamSession<H>, op: SessionOp<H>) -> bool {
    match op {
        SessionOp::Finish(id, _) => live.contains_key(id) || before.active_id() != Some(id),
        _ => true,
    }
}

/// One call keeps the invariant: at most one task runs with an uncancelled
/// token, and it is the one whose token the slot holds.
pub proof fn lemma_step_keeps_single_live<H>(
    before: StreamSession<H>,
    live: Map<u64, H>,
    op: SessionOp<H>,
    after: StreamSession<H>,
)
    requires
        single_live(before, live),
        session_step(before, op, after),
        no_reuse(live, before, op),
    ensures
        single_live(after, live_after(live, before, op)),
{
    let next = live_after(live, before, op);
    assert forall|id: u64| #[trigger] next.contains_key(id) implies after.active_id() == Some(id)
        && after.active_handle() == Some(next[id]) by {
        match op {
            SessionOp::Start(h, o) => {
                if id != o.id {
                    assert(live.contains_key(id));
                }
            },
            SessionOp::Finish(fid, r) => {
                assert(live.contains_key(id));
            },
            _ => {
                assert(live.contains_key(id));
            },
        }
    }
}

/// The relay tasks running after the calls `ops`, starting from none.
pub open spec fn live_through<H>(states: Seq<StreamSession<H>>, ops: Seq<SessionOp<H>>, n: nat) -> Map<
    u64,
    H,
>
    decreases n,
{
    if n == 0 {
        Map::empty()
    } else {
        live_after(live_through(states, ops, (n - 1) as nat), states[n - 1], ops[n - 1])
    }
}

/// Whatever interleaving of starts, takes, stops and task exits a session
/// goes through from idle, in every state reached at most one relay task
/// runs with an uncancelled token, and whenever the slot holds a token it
/// is that task's. `states[k + 1]` is what `ops[k]` makes of `states[k]`.
pub proof fn lemma_any_interleaving_single_live<H>(
    states: Seq<StreamSession<H>>,
    ops: Seq<SessionOp<H>>,
    k: nat,
)
    requires
        states.len() == ops.len() + 1,
        states[0].active_id() is None,
        forall|i: int| 0 <= i < ops.len() ==> #[trigger] session_step(states[i], ops[i], states[i + 1]),
        forall|i: int|
            0 <= i < ops.len() ==> #[trigger] no_reuse(
                live_through(states, ops, i as nat),
                states[i],
                ops[i],
            ),
        k < states.len(),
    ensures
        single_live(states[k as int], live_through(states, ops, k)),
        forall|a: u64, b: u64|
            live_through(states, ops, k).contains_key(a) && live_through(states, ops, k).contains_key(b)
                ==> a == b,
    decreases k,
{
    if k > 0 {
        lemma_any_interleaving_single_live(states, ops, (k - 1) as nat);
        let i = k - 1;
        assert(session_step(states[i], ops[i], states[i + 1]));
        assert(no_reuse(live_through(states, ops, i as nat), states[i], ops[i]));
        lemma_step_keeps_single_live(states[i], live_through(states, ops, i as nat), ops[i], states[i + 1]);
    }
    let live = live_through(states, ops, k);
    assert forall|a: u64, b: u64| live.contains_key(a) && live.contains_key(b) implies a == b by {
        assert(states[k as int].active_id() == Some(a));
        assert(states[k as int].active_id() == Some(b));
    }
}

/// Starting while a session is active displaces exactly the handle of that
/// session, and leaves the new handle as the only active one.
pub proof fn lemma_restart_displaces_previous<H>(
    before: StreamSession<H>,
    previous: H,
    handle: H,
    outcome: StartOutcome<H>,
    after: StreamSession<H>,
)
    requires
        before.active_handle() == Some(previous),
        started(before, handle, outcome, after),
    ensures
        outcome.previous == Some(previous),
        after.active_handle() == Some(handle),
        after.active_id() == Some(outcome.id),
{
}

/// After a stop no session is streaming, and a second stop before another
/// start fails with `NoActiveStream`.
pub proof fn lemma_stop_twice<H>(
    s0: StreamSession<H>,
    r1: Result<H, DeviceError>,
    s1: StreamSession<H>,
    r2: Result<H, DeviceError>,
    s2: StreamSession<H>,
)
    requires
        stopped(s0, r1, s1),
        stopped(s1, r2, s2),
    ensures
        !(s1.active_handle() is Some),
        r2 matches Err(DeviceError::NoActiveStream(_)),
{
}

} // verus!
