//! Task envelopes: each wraps one task and the channel its result goes back
//! on, so that the runtime can run tasks of many kinds one after another.
//! Running an envelope enters the base frame of an empty stack, runs the
//! task, leaves the frame (also when the task failed) and sends the result.
use crate::channel::OneshotSender;
use crate::error::{JlrsError, JlrsResult};
use crate::channel::RequestChannel;
use crate::persistent::{initial, next, LoopEvent, LoopState, Phase, PersistentLoop, Received};
use crate::stack::{Frame, Stack};
use crate::value::Value;
use std::marker::PhantomData;
use vstd::prelude::*;

verus! {

/// A task that runs once and produces one result.
pub trait AsyncTask {
    type Output;

    /// Runs the task in `frame` of `stack` and hands the stack back.
    fn run(&mut self, stack: Stack, frame: Frame) -> (Stack, JlrsResult<Self::Output>);

    /// Does the engine-side setup that the task needs, once.
    fn register(stack: Stack, frame: Frame) -> (Stack, JlrsResult<()>);
}

/// A long-lived task that keeps a state across many requests.
pub trait PersistentTask {
    type State;
    type Input;
    type Output;

    /// How many requests may wait for the task at once.
    fn channel_capacity() -> usize;

    /// Creates the state.
    fn init(&mut self, stack: Stack, frame: Frame) -> (Stack, JlrsResult<Self::State>);

    /// Answers one request.
    fn run(&mut self, stack: Stack, frame: Frame, state: &mut Self::State, input: Self::Input) -> (
        Stack,
        JlrsResult<Self::Output>,
    );

    /// Tears the state down once every handle is gone.
    fn exit(&mut self, stack: Stack, frame: Frame, state: &mut Self::State) -> Stack;

    /// Does the engine-side setup that the task needs, once.
    fn register(stack: Stack, frame: Frame) -> (Stack, JlrsResult<()>);
}

/// Marks an envelope that runs a one-shot task.
#[derive(Debug)]
pub struct Task;

/// Marks an envelope that registers a one-shot task.
#[derive(Debug)]
pub struct RegisterTask;

/// Marks an envelope that spawns a persistent task.
#[derive(Debug)]
pub struct Persistent;

/// Marks an envelope that registers a persistent task.
#[derive(Debug)]
pub struct RegisterPersistent;

/// One request to a persistent task: its input and where its answer goes.
pub struct CallPersistentTask<I, O, S> {
    sender: S,
    input: I,
    output: PhantomData<O>,
}

impl<I, O, S: OneshotSender<JlrsResult<O>>> CallPersistentTask<I, O, S> {
    /// The input.
    pub closed spec fn spec_input(&self) -> I {
        self.input
    }

    /// Where the answer goes.
    pub closed spec fn spec_sender(&self) -> S {
        self.sender
    }

    /// A request for `input`, answered on `sender`.
    pub fn new(input: I, sender: S) -> (r: Self)
        ensures
            r.spec_input() == input,
            r.spec_sender() == sender,
    {
        CallPersistentTask { sender, input, output: PhantomData }
    }

    /// Takes the request apart into its input and its reply channel.
    pub fn into_parts(self) -> (r: (I, S))
        ensures
            r.0 == self.spec_input(),
            r.1 == self.spec_sender(),
    {
        (self.input, self.sender)
    }
}

/// What the spawner of a persistent task is sent: the handle `H` is made by the
/// runtime from the task's request channel.
pub struct PersistentComms<C, P, O> {
    sender: O,
    task: PhantomData<P>,
    channel: PhantomData<C>,
}

impl<C, P, O> PersistentComms<C, P, O> {
    /// The channel the handle or `init`'s error is sent on.
    pub closed spec fn spec_sender(&self) -> O {
        self.sender
    }

    /// Wraps the channel the handle or `init`'s error is sent on.
    pub fn new(sender: O) -> (r: Self)
        ensures
            r.spec_sender() == sender,
    {
        PersistentComms { sender, task: PhantomData, channel: PhantomData }
    }
}

/// An envelope: a task of kind `Kind` (one of the markers above) and the
/// channel `O` its result goes back on.
pub struct PendingTask<O, T, Kind> {
    task: Option<T>,
    sender: O,
    kind: PhantomData<Kind>,
}

impl<O, T, Kind> PendingTask<O, T, Kind> {
    /// The task, where the envelope carries one.
    pub closed spec fn spec_task(&self) -> Option<T> {
        self.task
    }

    /// The result channel.
    pub closed spec fn spec_sender(&self) -> O {
        self.sender
    }
}

impl<O: OneshotSender<JlrsResult<A::Output>>, A: AsyncTask> PendingTask<O, A, Task> {
    /// An envelope that runs `task` and sends its result on `sender`.
    pub fn new(task: A, sender: O) -> (r: Self)
        ensures
            r.spec_task() == Some(task),
            r.spec_sender() == sender,
    {
        PendingTask { task: Some(task), sender, kind: PhantomData }
    }

    /// Takes the envelope apart.
    pub fn split(self) -> (r: (A, O))
        requires
            self.spec_task().is_some(),
        ensures
            r.0 == self.spec_task().unwrap(),
            r.1 == self.spec_sender(),
    {
        (self.task.unwrap(), self.sender)
    }

    /// Runs the task in the base frame of the empty `stack`; returns the stack,
    /// emptied again whether the task failed or not, the task's result and the
    /// result channel.
    pub fn call(self, stack: Stack) -> (r: (Stack, JlrsResult<A::Output>, O))
        requires
            self.spec_task().is_some(),
            stack@.len() == 0,
        ensures
            r.0@.len() == 0,
            r.2 == self.spec_sender(),
    {
        let (mut task, sender) = self.split();
        let frame = stack.base();
        let (mut stack, res) = task.run(stack, frame);
        stack.pop_frame(frame);
        (stack, res, sender)
    }

    /// Runs the task as `call` does and sends its result, unchanged.
    pub fn dispatch(self, stack: Stack) -> (r: Stack)
        requires
            self.spec_task().is_some(),
            stack@.len() == 0,
        ensures
            r@.len() == 0,
    {
        let (stack, res, sender) = self.call(stack);
        sender.send(res);
        stack
    }
}

impl<O: OneshotSender<JlrsResult<()>>, A: AsyncTask> PendingTask<O, A, RegisterTask> {
    /// An envelope that registers the task type `A` and reports on `sender`.
    pub fn new(sender: O) -> (r: Self)
        ensures
            r.spec_task().is_none(),
            r.spec_sender() == sender,
    {
        PendingTask { task: None, sender, kind: PhantomData }
    }

    /// Takes the result channel out.
    pub fn sender(self) -> (r: O)
        ensures
            r == self.spec_sender(),
    {
        self.sender
    }

    /// Registers `A` in the base frame of the empty `stack`; returns the
    /// stack, emptied again, the outcome and the result channel.
    pub fn call(self, stack: Stack) -> (r: (Stack, JlrsResult<()>, O))
        requires
            stack@.len() == 0,
        ensures
            r.0@.len() == 0,
            r.2 == self.spec_sender(),
    {
        let sender = self.sender();
        let frame = stack.base();
        let (mut stack, res) = A::register(stack, frame);
        stack.pop_frame(frame);
        (stack, res, sender)
    }

    /// Registers `A` as `call` does and sends the outcome, unchanged.
    pub fn dispatch(self, stack: Stack) -> (r: Stack)
        requires
            stack@.len() == 0,
        ensures
            r@.len() == 0,
    {
        let (stack, res, sender) = self.call(stack);
        sender.send(res);
        stack
    }
}

impl<O: OneshotSender<JlrsResult<()>>, P: PersistentTask> PendingTask<O, P, RegisterPersistent> {
    /// An envelope that registers the persistent task type `P` and reports on `sender`.
    pub fn new(sender: O) -> (r: Self)
        ensures
            r.spec_task().is_none(),
            r.spec_sender() == sender,
    {
        PendingTask { task: None, sender, kind: PhantomData }
    }

    /// Takes the result channel out.
    pub fn sender(self) -> (r: O)
        ensures
            r == self.spec_sender(),
    {
        self.sender
    }

    /// Registers `P` in the base frame of the empty `stack`; returns the
    /// stack, emptied again, the outcome and the result channel.
    pub fn call(self, stack: Stack) -> (r: (Stack, JlrsResult<()>, O))
        requires
            stack@.len() == 0,
        ensures
            r.0@.len() == 0,
            r.2 == self.spec_sender(),
    {
        let sender = self.sender();
        let frame = stack.base();
        let (mut stack, res) = P::register(stack, frame);
        stack.pop_frame(frame);
        (stack, res, sender)
    }

    /// Registers `P` as `call` does and sends the outcome, unchanged.
    pub fn dispatch(self, stack: Stack) -> (r: Stack)
        requires
            stack@.len() == 0,
        ensures
            r@.len() == 0,
    {
        let (stack, res, sender) = self.call(stack);
        sender.send(res);
        stack
    }
}

impl<C, O: OneshotSender<JlrsResult<C>>, P: PersistentTask> PendingTask<PersistentComms<C, P, O>, P, Persistent> {
    /// An envelope that spawns `task` and sends its handle on `comms`.
    pub fn new(task: P, comms: PersistentComms<C, P, O>) -> (r: Self)
        ensures
            r.spec_task() == Some(task),
            r.spec_sender() == comms,
    {
        PendingTask { task: Some(task), sender: comms, kind: PhantomData }
    }

    /// Takes the envelope apart.
    pub fn split(self) -> (r: (P, PersistentComms<C, P, O>))
        requires
            self.spec_task().is_some(),
        ensures
            r.0 == self.spec_task().unwrap(),
            r.1 == self.spec_sender(),
    {
        (self.task.unwrap(), self.sender)
    }

    /// Runs `init` in the base frame of the empty `stack` and hands its result
    /// to `PersistentWorker::start`, which decides what the spawner is sent:
    /// `handle` on success, `init`'s error on failure. On success the running
    /// task is returned, with what `init` rooted kept on the stack; on failure
    /// the base frame is left and no task is returned: it never runs.
    pub fn call(self, stack: Stack, handle: C) -> (r: (Stack, Option<PersistentWorker<P>>))
        requires
            self.spec_task().is_some(),
            stack@.len() == 0,
        ensures
            r.1 is None ==> r.0@.len() == 0,
            r.1 is Some ==> r.1->0.spec_loop() == (LoopState { phase: Phase::Running, offset: r.0@.len() as usize })
                && r.1->0.spec_runs() == 0 && r.1->0.spec_exits() == 0,
    {
        let (mut task, comms) = self.split();
        let frame = stack.base();
        let (stack, res) = task.init(stack, frame);
        let (stack, worker, reply) = PersistentWorker::start(task, stack, res, handle);
        comms.sender.send(reply);
        (stack, worker)
    }
}

/// A persistent task after a successful `init`: the task, its state and the
/// loop that decides what it does next. The ghost counts record how often
/// `run` and `exit` were called.
pub struct PersistentWorker<P: PersistentTask> {
    task: P,
    state: P::State,
    life: PersistentLoop,
    runs: Ghost<nat>,
    exits: Ghost<nat>,
}

/// What one turn of a persistent task did.
#[derive(Debug, PartialEq, Eq, Structural)]
pub enum Served {
    /// A request was answered.
    Answered,
    /// No request waits: the task waits for one.
    Waiting,
    /// Every handle is gone: `exit` ran and the task is over.
    Finished,
}

impl<P: PersistentTask> PersistentWorker<P> {
    /// The loop's state.
    pub closed spec fn spec_loop(&self) -> LoopState {
        self.life@
    }

    /// The task's state.
    pub closed spec fn spec_state(&self) -> P::State {
        self.state
    }

    /// How many requests `run` has been called for.
    pub closed spec fn spec_runs(&self) -> nat {
        self.runs@
    }

    /// How many times `exit` has been called.
    pub closed spec fn spec_exits(&self) -> nat {
        self.exits@
    }

    /// Returns the phase of the task.
    pub fn phase(&self) -> (r: Phase)
        ensures
            r == self.spec_loop().phase,
    {
        self.life.phase()
    }

    /// Decides on `res`, what `init` returned on `stack`: on success the task
    /// runs, with frames starting where `init` left off, and the spawner is
    /// to be sent `handle`; on failure the stack is emptied, no task is
    /// returned and the spawner is to be sent the error.
    pub fn start<C>(task: P, stack: Stack, res: JlrsResult<P::State>, handle: C) -> (r: (
        Stack,
        Option<PersistentWorker<P>>,
        JlrsResult<C>,
    ))
        ensures
            res is Ok <==> r.1 is Some,
            match res {
                Ok(state) => r.2 == Ok::<C, JlrsError>(handle) && r.0@ == stack@ && r.1->0.spec_loop() == next(
                    initial(),
                    LoopEvent::InitSucceeded { offset: stack@.len() as usize },
                ).0 && r.1->0.spec_loop() == (LoopState { phase: Phase::Running, offset: stack@.len() as usize })
                    && r.1->0.spec_state() == state && r.1->0.spec_runs() == 0 && r.1->0.spec_exits() == 0,
                Err(e) => r.2 == Err::<C, JlrsError>(e) && r.0@.len() == 0 && next(
                    initial(),
                    LoopEvent::InitFailed,
                ).0.phase == Phase::Terminated,
            },
    {
        let (mut life, _) = PersistentLoop::new();
        match res {
            Ok(state) => {
                life.step(LoopEvent::InitSucceeded { offset: stack.size() });
                let worker = PersistentWorker { task, state, life, runs: Ghost(0), exits: Ghost(0) };
                (stack, Some(worker), Ok(handle))
            },
            Err(e) => {
                life.step(LoopEvent::InitFailed);
                let mut stack = stack;
                stack.pop_frame(Frame::at_base());
                (stack, None, Err(e))
            },
        }
    }

    /// One turn of the task, without sending the reply. While running:
    /// - the oldest waiting request on `ch` is taken; `run` is called with its
    ///   input and the task's state, in a frame rebuilt at the task's offset
    ///   (which discards what the previous request rooted), and the reply is
    ///   returned with the request's own reply channel. Where a task body
    ///   released slots below the offset, the reply is `FrameLost` instead,
    ///   `run` is not called and the stack is left as it is;
    /// - an empty channel makes the task wait;
    /// - a closed one runs `exit` (in a frame at the offset, or on top of the
    ///   stack where that frame is lost), ends the task, empties the stack and
    ///   closes the receiving side, so that later requests are refused.
    pub fn serve_turn<S: OneshotSender<JlrsResult<P::Output>>>(
        &mut self,
        stack: Stack,
        ch: &mut RequestChannel<CallPersistentTask<P::Input, P::Output, S>>,
    ) -> (r: (Stack, Served, Option<(S, JlrsResult<P::Output>)>))
        requires
            old(ch).wf(),
        ensures
            final(ch).wf(),
            final(ch).accepted() == old(ch).accepted(),
            (old(self).spec_loop().phase == Phase::Running && old(ch).queued().len() > 0) ==> {
                &&& r.1 == Served::Answered
                &&& final(ch).queued() == old(ch).queued().drop_first()
                &&& final(ch).delivered() == old(ch).delivered().push(old(ch).queued()[0])
                &&& final(self).spec_loop() == next(old(self).spec_loop(), LoopEvent::Request).0
                &&& final(self).spec_exits() == old(self).spec_exits()
                &&& r.2 is Some
                &&& (r.2->0).0 == old(ch).queued()[0].spec_sender()
                &&& final(ch).spec_receiver_open() == old(ch).spec_receiver_open()
            },
            (old(self).spec_loop().phase == Phase::Running && old(ch).queued().len() > 0 && old(self).spec_loop().offset <= stack@.len()) ==> {
                &&& final(self).spec_runs() == old(self).spec_runs() + 1
            },
            (old(self).spec_loop().phase == Phase::Running && old(ch).queued().len() > 0 && old(self).spec_loop().offset > stack@.len()) ==> {
                &&& r.0@ == stack@
                &&& r.2 == Some((old(ch).queued()[0].spec_sender(), Err::<P::Output, JlrsError>(JlrsError::FrameLost)))
                &&& final(self).spec_runs() == old(self).spec_runs()
            },
            (old(self).spec_loop().phase == Phase::Running && old(ch).queued().len() == 0 && old(ch).spec_senders_open()) ==> {
                &&& r.1 == Served::Waiting
                &&& r.0@ == stack@
                &&& r.2 is None
                &&& final(self).spec_loop() == old(self).spec_loop()
                &&& final(self).spec_runs() == old(self).spec_runs()
                &&& final(self).spec_exits() == old(self).spec_exits()
                &&& final(ch).spec_receiver_open() == old(ch).spec_receiver_open()
            },
            (old(self).spec_loop().phase == Phase::Running && old(ch).queued().len() == 0 && !old(ch).spec_senders_open()) ==> {
                &&& r.1 == Served::Finished
                &&& r.0@.len() == 0
                &&& r.2 is None
                &&& final(self).spec_loop() == next(next(old(self).spec_loop(), LoopEvent::ChannelClosed).0, LoopEvent::ExitFinished).0
                &&& final(self).spec_loop().phase == Phase::Terminated
                &&& final(self).spec_exits() == old(self).spec_exits() + 1
                &&& final(self).spec_runs() == old(self).spec_runs()
                &&& !final(ch).spec_receiver_open()
            },
            (old(self).spec_loop().phase != Phase::Running) ==> {
                &&& r.1 == Served::Finished
                &&& r.0@ == stack@
                &&& r.2 is None
                &&& *final(self) == *old(self)
                &&& *final(ch) == *old(ch)
            },
    {
        match self.life.receive(ch) {
            Received::Serve { request, offset } => {
                let (input, reply) = request.into_parts();
                if offset > stack.size() {
                    return (stack, Served::Answered, Some((reply, Err(JlrsError::FrameLost))));
                }
                let mut stack = stack;
                let frame = stack.reconstruct(offset);
                let (stack, res) = self.task.run(stack, frame, &mut self.state, input);
                self.runs = Ghost(self.runs@ + 1);
                (stack, Served::Answered, Some((reply, res)))
            },
            Received::Wait => (stack, Served::Waiting, None),
            Received::Exit { offset } => {
                let mut stack = stack;
                let frame = if offset <= stack.size() {
                    stack.reconstruct(offset)
                } else {
                    stack.nest()
                };
                let mut stack = self.task.exit(stack, frame, &mut self.state);
                self.exits = Ghost(self.exits@ + 1);
                self.life.step(LoopEvent::ExitFinished);
                stack.pop_frame(Frame::at_base());
                ch.close_receiver();
                (stack, Served::Finished, None)
            },
            Received::NotRunning => (stack, Served::Finished, None),
        }
    }

    /// One turn of the task, as `serve_turn`, with the reply sent on the
    /// request's own reply channel.
    pub fn serve<S: OneshotSender<JlrsResult<P::Output>>>(
        &mut self,
        stack: Stack,
        ch: &mut RequestChannel<CallPersistentTask<P::Input, P::Output, S>>,
    ) -> (r: (Stack, Served))
        requires
            old(ch).wf(),
        ensures
            final(ch).wf(),
            final(ch).accepted() == old(ch).accepted(),
            (old(self).spec_loop().phase == Phase::Running && old(ch).queued().len() > 0) ==> {
                &&& r.1 == Served::Answered
                &&& final(ch).queued() == old(ch).queued().drop_first()
                &&& final(ch).delivered() == old(ch).delivered().push(old(ch).queued()[0])
                &&& final(self).spec_loop() == old(self).spec_loop()
            },
            (old(self).spec_loop().phase == Phase::Running && old(ch).queued().len() > 0 && old(self).spec_loop().offset <= stack@.len()) ==> {
                &&& final(self).spec_runs() == old(self).spec_runs() + 1
            },
            (old(self).spec_loop().phase == Phase::Running && old(ch).queued().len() > 0 && old(self).spec_loop().offset > stack@.len()) ==> {
                &&& r.0@ == stack@
                &&& final(self).spec_runs() == old(self).spec_runs()
            },
            (old(self).spec_loop().phase == Phase::Running && old(ch).queued().len() == 0 && old(ch).spec_senders_open()) ==> {
                &&& r.1 == Served::Waiting
                &&& r.0@ == stack@
                &&& final(self).spec_loop() == old(self).spec_loop()
            },
            (old(self).spec_loop().phase == Phase::Running && old(ch).queued().len() == 0 && !old(ch).spec_senders_open()) ==> {
                &&& r.1 == Served::Finished
                &&& r.0@.len() == 0
                &&& final(self).spec_loop().phase == Phase::Terminated
                &&& final(self).spec_exits() == old(self).spec_exits() + 1
                &&& !final(ch).spec_receiver_open()
            },
            (old(self).spec_loop().phase != Phase::Running) ==> {
                &&& r.1 == Served::Finished
                &&& r.0@ == stack@
                &&& *final(self) == *old(self)
            },
    {
        let (stack, served, reply) = self.serve_turn(stack, ch);
        if let Some((sender, res)) = reply {
            sender.send(res);
        }
        (stack, served)
    }
}

/// A native closure run directly against a frame, without the task traits.
pub struct BlockingTask<F, O, T> {
    func: F,
    sender: O,
    res: PhantomData<T>,
}

impl<F, O, T> BlockingTask<F, O, T> where
    F: FnOnce(Stack, Frame) -> (Stack, JlrsResult<T>),
    O: OneshotSender<JlrsResult<T>>,
 {
    /// The closure.
    pub closed spec fn spec_func(&self) -> F {
        self.func
    }

    /// The result channel.
    pub closed spec fn spec_sender(&self) -> O {
        self.sender
    }

    /// An envelope that runs `func` and sends its result on `sender`.
    pub fn new(func: F, sender: O) -> (r: Self)
        ensures
            r.spec_func() == func,
            r.spec_sender() == sender,
    {
        BlockingTask { func, sender, res: PhantomData }
    }

    /// Runs the closure in `frame` of `stack`; returns the stack and result it
    /// gave back, and the result channel.
    pub fn call(self, stack: Stack, frame: Frame) -> (r: (Stack, JlrsResult<T>, O))
        requires
            self.spec_func().requires((stack, frame)),
        ensures
            self.spec_func().ensures((stack, frame), (r.0, r.1)),
            r.2 == self.spec_sender(),
    {
        let func = self.func;
        let (stack, res) = func(stack, frame);
        (stack, res, self.sender)
    }

    /// Runs the closure in the base frame of the empty `stack` and sends its
    /// result; the stack is handed back empty.
    pub fn dispatch(self, stack: Stack) -> (r: Stack)
        requires
            stack@.len() == 0,
            forall|s: Stack, fr: Frame|
                s@.len() == 0 && fr.spec_base() == 0 ==> #[trigger] self.spec_func().requires((s, fr)),
        ensures
            r@.len() == 0,
    {
        let frame = stack.base();
        let (mut stack, res, sender) = self.call(stack, frame);
        stack.pop_frame(frame);
        sender.send(res);
        stack
    }
}

/// The outcome of loading a source file, from what the engine's file loader
/// (its lookup, then its call) gave: `Err` where the function could not be found,
/// `Ok(Err(exception))` where it raised, `Ok(Ok(_))` where it returned.
pub open spec fn include_outcome(path: Option<String>, engine: JlrsResult<Result<Value, Value>>) -> JlrsResult<()> {
    match path {
        None => Ok(()),
        Some(_) => match engine {
            Err(e) => Err(e),
            Ok(Err(exception)) => Err(JlrsError::IncludeError(exception)),
            Ok(Ok(_)) => Ok(()),
        },
    }
}

/// Includes a source file in the engine's main module. A path that is not
/// valid UTF-8 is carried as `None` and includes nothing.
pub struct IncludeTask<O> {
    path: Option<String>,
    sender: O,
}

impl<O: OneshotSender<JlrsResult<()>>> IncludeTask<O> {
    /// The path to load.
    pub closed spec fn spec_path(&self) -> Option<String> {
        self.path
    }

    /// The result channel.
    pub closed spec fn spec_sender(&self) -> O {
        self.sender
    }

    /// An envelope that includes `path` and reports on `sender`.
    pub fn new(path: Option<String>, sender: O) -> (r: Self)
        ensures
            r.spec_path() == path,
            r.spec_sender() == sender,
    {
        IncludeTask { path, sender }
    }

    /// Loads `path` through `load_file`, the engine's file loader of the main
    /// module, which is called only for a valid path.
    pub fn call_inner<F>(path: Option<String>, load_file: F) -> (r: JlrsResult<()>)
        where
            F: FnOnce(String) -> JlrsResult<Result<Value, Value>>,
        requires
            forall|p: String| #[trigger] load_file.requires((p,)),
        ensures
            path is None ==> r == Ok::<(), JlrsError>(()),
            path is Some ==> exists|out: JlrsResult<Result<Value, Value>>|
                #[trigger] load_file.ensures((path->0,), out) && r == include_outcome(path, out),
    {
        match path {
            Some(p) => {
                let ghost q = p;
                let out = load_file(p);
                assert(load_file.ensures((q,), out));
                match out {
                    Err(e) => Err(e),
                    Ok(Err(exception)) => Err(JlrsError::IncludeError(exception)),
                    Ok(Ok(_)) => Ok(()),
                }
            },
            None => Ok(()),
        }
    }

    /// Loads the file; returns the outcome and the result channel.
    pub fn call<F>(self, load_file: F) -> (r: (JlrsResult<()>, O))
        where
            F: FnOnce(String) -> JlrsResult<Result<Value, Value>>,
        requires
            forall|p: String| #[trigger] load_file.requires((p,)),
        ensures
            self.spec_path() is None ==> r.0 == Ok::<(), JlrsError>(()),
            self.spec_path() is Some ==> exists|out: JlrsResult<Result<Value, Value>>|
                #[trigger] load_file.ensures((self.spec_path()->0,), out) && r.0 == include_outcome(
                    self.spec_path(),
                    out,
                ),
            r.1 == self.spec_sender(),
    {
        let res = Self::call_inner(self.path, load_file);
        (res, self.sender)
    }

    /// Loads the file and sends the outcome.
    pub fn dispatch<F>(self, load_file: F)
        where
            F: FnOnce(String) -> JlrsResult<Result<Value, Value>>,
        requires
            forall|p: String| #[trigger] load_file.requires((p,)),
    {
        let (res, sender) = self.call(load_file);
        sender.send(res);
    }
}

/// Switches colored error messages of the engine on or off.
pub struct SetErrorColorTask<O> {
    enable: bool,
    sender: O,
}

impl<O: OneshotSender<JlrsResult<()>>> SetErrorColorTask<O> {
    /// Whether colors are to be switched on.
    pub closed spec fn spec_enable(&self) -> bool {
        self.enable
    }

    /// The result channel.
    pub closed spec fn spec_sender(&self) -> O {
        self.sender
    }

    /// An envelope that sets the color flag to `enable` and reports on `sender`.
    pub fn new(enable: bool, sender: O) -> (r: Self)
        ensures
            r.spec_enable() == enable,
            r.spec_sender() == sender,
    {
        SetErrorColorTask { enable, sender }
    }

    /// Stores the engine's `true` or `false` through `set_color`, which sets
    /// the first field of the color flag of the engine's support module.
    pub fn call_inner<F>(enable: bool, set_color: F) -> (r: JlrsResult<()>)
        where
            F: FnOnce(Value) -> JlrsResult<()>,
        requires
            set_color.requires((Value::Bool(enable),)),
        ensures
            set_color.ensures((Value::Bool(enable),), r),
    {
        let flag = if enable {
            Value::Bool(true)
        } else {
            Value::Bool(false)
        };
        set_color(flag)
    }

    /// Sets the flag; returns the outcome and the result channel.
    pub fn call<F>(self, set_color: F) -> (r: (JlrsResult<()>, O))
        where
            F: FnOnce(Value) -> JlrsResult<()>,
        requires
            set_color.requires((Value::Bool(self.spec_enable()),)),
        ensures
            set_color.ensures((Value::Bool(self.spec_enable()),), r.0),
            r.1 == self.spec_sender(),
    {
        let res = Self::call_inner(self.enable, set_color);
        (res, self.sender)
    }

    /// Sets the flag and sends the outcome.
    pub fn dispatch<F>(self, set_color: F)
        where
            F: FnOnce(Value) -> JlrsResult<()>,
        requires
            set_color.requires((Value::Bool(self.spec_enable()),)),
    {
        let (res, sender) = self.call(set_color);
        sender.send(res);
    }
}

} // verus!
