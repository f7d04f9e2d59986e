//! The life of a persistent task: the decisions of its loop, from state and
//! event to next state and action. The runtime performs each action (runs
//! `init`, `run` or `exit`, answers a request) and reports what happened.
//!
//! Initializing → Running → Exiting → Terminated; a failed `init` goes from
//! Initializing straight to Terminated.
use crate::channel::{RecvOutcome, RequestChannel, SendOutcome};
use crate::error::{JlrsError, JlrsResult};
use vstd::prelude::*;

verus! {

/// Where a persistent task is in its life.
#[derive(Clone, Copy, Debug, PartialEq, Eq, Structural)]
pub enum Phase {
    Initializing,
    Running,
    Exiting,
    Terminated,
}

/// What the runtime reports to the loop.
#[derive(Clone, Copy, Debug, PartialEq, Eq, Structural)]
pub enum LoopEvent {
    /// `init` returned a state; `offset` is the stack's size after it.
    InitSucceeded { offset: usize },
    /// `init` failed.
    InitFailed,
    /// A request arrived.
    Request,
    /// Every handle is gone and no request waits.
    ChannelClosed,
    /// `exit` returned.
    ExitFinished,
}

/// What the loop asks the runtime to do.
#[derive(Clone, Copy, Debug, PartialEq, Eq, Structural)]
pub enum LoopAction {
    /// Run `init` in the base frame.
    RunInit,
    /// Hand the new handle to whoever spawned the task.
    PublishHandle,
    /// Hand `init`'s error to whoever spawned the task.
    ReportInitError,
    /// Rebuild the frame at `offset` and run `run` on the request.
    Serve { offset: usize },
    /// Rebuild the frame at `offset` and run `exit`.
    RunExit { offset: usize },
    /// The task is over.
    Stop,
    /// The event does not apply in this phase.
    Ignore,
}

/// The model of a loop: its phase and the stack offset its frames start at.
pub ghost struct LoopState {
    pub phase: Phase,
    pub offset: usize,
}

/// The next state and the action for `ev` in state `s`.
pub open spec fn next(s: LoopState, ev: LoopEvent) -> (LoopState, LoopAction) {
    match (s.phase, ev) {
        (Phase::Initializing, LoopEvent::InitSucceeded { offset }) => (
            LoopState { phase: Phase::Running, offset },
            LoopAction::PublishHandle,
        ),
        (Phase::Initializing, LoopEvent::InitFailed) => (
            LoopState { phase: Phase::Terminated, ..s },
            LoopAction::ReportInitError,
        ),
        (Phase::Running, LoopEvent::Request) => (s, LoopAction::Serve { offset: s.offset }),
        (Phase::Running, LoopEvent::ChannelClosed) => (
            LoopState { phase: Phase::Exiting, ..s },
            LoopAction::RunExit { offset: s.offset },
        ),
        (Phase::Exiting, LoopEvent::ExitFinished) => (
            LoopState { phase: Phase::Terminated, ..s },
            LoopAction::Stop,
        ),
        _ => (s, LoopAction::Ignore),
    }
}

/// The state of a newly spawned task.
pub open spec fn initial() -> LoopState {
    LoopState { phase: Phase::Initializing, offset: 0 }
}

/// The state after the events `evs`, taken in order from `s`.
pub open spec fn after_events(s: LoopState, evs: Seq<LoopEvent>) -> LoopState
    decreases evs.len(),
{
    if evs.len() == 0 {
        s
    } else {
        after_events(next(s, evs[0]).0, evs.drop_first())
    }
}

/// The actions asked for while the events `evs` are taken in order from `s`.
pub open spec fn actions(s: LoopState, evs: Seq<LoopEvent>) -> Seq<LoopAction>
    decreases evs.len(),
{
    if evs.len() == 0 {
        Seq::empty()
    } else {
        seq![next(s, evs[0]).1] + actions(next(s, evs[0]).0, evs.drop_first())
    }
}

/// Everything a task asks of the runtime over its life: `init` when it is
/// spawned, then one action per event.
pub open spec fn life(evs: Seq<LoopEvent>) -> Seq<LoopAction> {
    seq![LoopAction::RunInit] + actions(initial(), evs)
}

proof fn lemma_actions_never_init(s: LoopState, evs: Seq<LoopEvent>)
    ensures
        actions(s, evs).len() == evs.len(),
        forall|i: int| 0 <= i < evs.len() ==> actions(s, evs)[i] != LoopAction::RunInit,
    decreases evs.len(),
{
    if evs.len() > 0 {
        lemma_actions_never_init(next(s, evs[0]).0, evs.drop_first());
        let rest = actions(next(s, evs[0]).0, evs.drop_first());
        assert forall|i: int| 0 <= i < evs.len() implies actions(s, evs)[i] != LoopAction::RunInit by {
            if i > 0 {
                assert(actions(s, evs)[i] == rest[i - 1]);
            }
        }
    }
}

/// `init` runs exactly once per persistent task, whatever events follow and
/// however many requests are served.
pub proof fn lemma_init_runs_once(evs: Seq<LoopEvent>)
    ensures
        life(evs).len() == evs.len() + 1,
        life(evs)[0] == LoopAction::RunInit,
        forall|i: int| 0 < i < life(evs).len() ==> #[trigger] life(evs)[i] != LoopAction::RunInit,
{
    lemma_actions_never_init(initial(), evs);
    assert forall|i: int| 0 < i < life(evs).len() implies #[trigger] life(evs)[i] != LoopAction::RunInit by {
        assert(life(evs)[i] == actions(initial(), evs)[i - 1]);
    }
}

/// The loop of one persistent task.
pub struct PersistentLoop {
    phase: Phase,
    offset: usize,
}

impl View for PersistentLoop {
    type V = LoopState;

    closed spec fn view(&self) -> LoopState {
        LoopState { phase: self.phase, offset: self.offset }
    }
}

/// What the loop does with the channel's next request.
#[derive(Debug)]
pub enum Received<M> {
    /// Rebuild the frame at `offset` and run `run` on this request.
    Serve { request: M, offset: usize },
    /// Nothing waits: suspend until a request arrives.
    Wait,
    /// Every handle is gone: rebuild the frame at `offset` and run `exit`.
    Exit { offset: usize },
    /// The loop is not running.
    NotRunning,
}

impl PersistentLoop {
    /// Spawns a loop; its first action is to run `init`.
    pub fn new() -> (r: (PersistentLoop, LoopAction))
        ensures
            r.0@ == initial(),
            r.1 == LoopAction::RunInit,
    {
        (PersistentLoop { phase: Phase::Initializing, offset: 0 }, LoopAction::RunInit)
    }

    /// Returns the phase.
    pub fn phase(&self) -> (r: Phase)
        ensures
            r == self@.phase,
    {
        self.phase
    }

    /// Takes `ev` and returns what the runtime is to do next.
    pub fn step(&mut self, ev: LoopEvent) -> (r: LoopAction)
        ensures
            final(self)@ == next(old(self)@, ev).0,
            r == next(old(self)@, ev).1,
    {
        match (self.phase, ev) {
            (Phase::Initializing, LoopEvent::InitSucceeded { offset }) => {
                self.phase = Phase::Running;
                self.offset = offset;
                LoopAction::PublishHandle
            },
            (Phase::Initializing, LoopEvent::InitFailed) => {
                self.phase = Phase::Terminated;
                LoopAction::ReportInitError
            },
            (Phase::Running, LoopEvent::Request) => LoopAction::Serve { offset: self.offset },
            (Phase::Running, LoopEvent::ChannelClosed) => {
                self.phase = Phase::Exiting;
                LoopAction::RunExit { offset: self.offset }
            },
            (Phase::Exiting, LoopEvent::ExitFinished) => {
                self.phase = Phase::Terminated;
                LoopAction::Stop
            },
            _ => LoopAction::Ignore,
        }
    }

    /// Takes the next request off `ch` while running: the oldest waiting one
    /// is served, an empty channel makes the loop wait, and a closed one makes
    /// it exit.
    pub fn receive<M>(&mut self, ch: &mut RequestChannel<M>) -> (r: Received<M>)
        requires
            old(ch).wf(),
        ensures
            final(ch).wf(),
            old(self)@.phase != Phase::Running ==> r == Received::<M>::NotRunning && *final(self) == *old(self)
                && *final(ch) == *old(ch),
            old(self)@.phase == Phase::Running && old(ch).queued().len() > 0 ==> r == (Received::Serve {
                request: old(ch).queued()[0],
                offset: old(self)@.offset,
            }) && final(self)@ == old(self)@ && final(ch).queued() == old(ch).queued().drop_first()
                && final(ch).delivered() == old(ch).delivered().push(old(ch).queued()[0]),
            old(self)@.phase == Phase::Running && old(ch).queued().len() == 0 && old(ch).spec_senders_open() ==> r
                == Received::<M>::Wait && final(self)@ == old(self)@,
            old(self)@.phase == Phase::Running && old(ch).queued().len() == 0 && !old(ch).spec_senders_open() ==> r
                == (Received::<M>::Exit { offset: old(self)@.offset }) && final(self)@ == next(
                old(self)@,
                LoopEvent::ChannelClosed,
            ).0,
            final(ch).accepted() == old(ch).accepted(),
            final(ch).spec_receiver_open() == old(ch).spec_receiver_open(),
            final(ch).spec_capacity() == old(ch).spec_capacity(),
    {
        if self.phase != Phase::Running {
            return Received::NotRunning;
        }
        match ch.try_recv() {
            RecvOutcome::Message(request) => {
                match self.step(LoopEvent::Request) {
                    LoopAction::Serve { offset } => Received::Serve { request, offset },
                    _ => Received::NotRunning,
                }
            },
            RecvOutcome::Empty => Received::Wait,
            RecvOutcome::Closed => {
                match self.step(LoopEvent::ChannelClosed) {
                    LoopAction::RunExit { offset } => Received::Exit { offset },
                    _ => Received::NotRunning,
                }
            },
        }
    }
}

/// Submits `request` to a persistent task through its channel. `Ok(None)`: it
/// is queued. `Ok(Some(request))`: the channel is full, and the submitter
/// waits until a request is drained before it tries again. `Err(Unavailable)`:
/// the task's loop has exited; the submitter is told at once.
pub fn submit<M>(ch: &mut RequestChannel<M>, request: M) -> (r: JlrsResult<Option<M>>)
    requires
        old(ch).wf(),
    ensures
        final(ch).wf(),
        !old(ch).spec_receiver_open() ==> (r matches Err(JlrsError::Unavailable)),
        !old(ch).spec_receiver_open() ==> final(ch).queued() == old(ch).queued(),
        old(ch).spec_receiver_open() && old(ch).queued().len() == old(ch).spec_capacity() ==> r == Ok::<
            Option<M>,
            JlrsError,
        >(Some(request)) && final(ch).queued() == old(ch).queued(),
        old(ch).spec_receiver_open() && old(ch).queued().len() < old(ch).spec_capacity() ==> r == Ok::<
            Option<M>,
            JlrsError,
        >(None) && final(ch).queued() == old(ch).queued().push(request) && final(ch).accepted() == old(
            ch,
        ).accepted().push(request),
        final(ch).delivered() == old(ch).delivered(),
        final(ch).spec_receiver_open() == old(ch).spec_receiver_open(),
        final(ch).spec_senders_open() == old(ch).spec_senders_open(),
        final(ch).spec_capacity() == old(ch).spec_capacity(),
{
    match ch.try_send(request) {
        SendOutcome::Sent => Ok(None),
        SendOutcome::Full(request) => Ok(Some(request)),
        SendOutcome::Closed(_) => Err(JlrsError::Unavailable),
    }
}

} // verus!
