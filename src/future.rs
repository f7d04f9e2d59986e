//! The bridge from the engine's scheduler to host futures.
//!
//! A submission roots the key of a shared `TaskState` in the caller's frame
//! and asks one of the engine's scheduling functions to run the work. When the
//! engine's task finishes, its completion callback marks the state completed
//! and hands back the waker to wake; a poll either fetches the finished task's
//! result or registers the waker once and waits.
use crate::stack::{Frame, Stack};
use crate::value::Value;
use smallvec::SmallVec;
use vstd::prelude::*;

verus! {

/// How many arguments a scheduling call holds before it spills to the heap.
pub const MAX_SIZE: usize = 8;

/// The argument vector of a scheduling call: a `SmallVec` that keeps up to
/// `MAX_SIZE` values inline.
#[verifier::external_body]
pub struct CallArgs {
    inner: SmallVec<[Value; MAX_SIZE]>,
}

/// The values an argument vector holds, in order.
pub uninterp spec fn arg_values(v: CallArgs) -> Seq<Value>;

/// Relies on `SmallVec::new`: the vector it returns is empty.
#[verifier::external_body]
fn args_new() -> (r: CallArgs)
    ensures
        arg_values(r) == Seq::<Value>::empty(),
{
    CallArgs { inner: SmallVec::new() }
}

/// Relies on `SmallVec::push`: `x` is appended.
#[verifier::external_body]
fn args_push(v: &mut CallArgs, x: Value)
    ensures
        arg_values(*final(v)) == arg_values(*old(v)).push(x),
{
    v.inner.push(x)
}

/// Relies on `SmallVec::extend_from_slice`: the slice's values are appended in order.
#[verifier::external_body]
fn args_extend(v: &mut CallArgs, s: &[Value])
    ensures
        arg_values(*final(v)) == arg_values(*old(v)) + s@,
{
    v.inner.extend_from_slice(s)
}

/// Relies on `SmallVec::as_slice`: the slice holds the vector's values in order.
#[verifier::external_body]
fn args_as_slice(v: &CallArgs) -> (r: &[Value])
    ensures
        r@ == arg_values(*v),
{
    v.inner.as_slice()
}

/// The state shared by a host future and the completion callback of the
/// engine task behind it. `W` is the host's waker.
pub struct TaskState<W> {
    completed: bool,
    waker: Option<W>,
    task: Option<u64>,
}

impl<W> TaskState<W> {
    /// Whether the engine task has finished.
    pub closed spec fn spec_completed(&self) -> bool {
        self.completed
    }

    /// The waker registered by a pending poll.
    pub closed spec fn spec_waker(&self) -> Option<W> {
        self.waker
    }

    /// The handle of the engine task, once it is known.
    pub closed spec fn spec_task(&self) -> Option<u64> {
        self.task
    }

    /// The invariant: a task is known before it can be completed.
    pub open spec fn wf(&self) -> bool {
        self.spec_completed() ==> self.spec_task().is_some()
    }

    /// A state for a submission that has not been scheduled yet.
    pub fn new() -> (r: Self)
        ensures
            r.wf(),
            !r.spec_completed(),
            r.spec_waker().is_none(),
            r.spec_task().is_none(),
    {
        TaskState { completed: false, waker: None, task: None }
    }

    /// Returns whether the engine task has finished.
    pub fn is_completed(&self) -> (r: bool)
        ensures
            r == self.spec_completed(),
    {
        self.completed
    }

    /// Returns the handle of the engine task, once it is known.
    pub fn task(&self) -> (r: Option<u64>)
        ensures
            r == self.spec_task(),
    {
        self.task
    }

    /// Records the engine task that scheduling returned. It is set once and
    /// never cleared.
    pub fn set_task(&mut self, task: u64)
        requires
            old(self).wf(),
            old(self).spec_task().is_none(),
        ensures
            final(self).wf(),
            final(self).spec_task() == Some(task),
            final(self).spec_completed() == old(self).spec_completed(),
            final(self).spec_waker() == old(self).spec_waker(),
    {
        self.task = Some(task);
    }

    /// The completion callback: marks the task completed and hands back the
    /// registered waker, if any, for the caller to wake.
    pub fn wake_task(&mut self) -> (r: Option<W>)
        requires
            old(self).wf(),
            old(self).spec_task().is_some(),
        ensures
            final(self).wf(),
            final(self).spec_completed(),
            final(self).spec_waker().is_none(),
            final(self).spec_task() == old(self).spec_task(),
            r == old(self).spec_waker(),
    {
        self.completed = true;
        self.waker.take()
    }

    /// A poll of the host future. Once the task is completed it returns the
    /// task to fetch the result from, and registers nothing. Before that it
    /// stores `waker`, the current poller's, in place of any earlier one, and
    /// returns `None`.
    pub fn poll(&mut self, waker: W) -> (r: Option<u64>)
        requires
            old(self).wf(),
        ensures
            final(self).wf(),
            final(self).spec_completed() == old(self).spec_completed(),
            final(self).spec_task() == old(self).spec_task(),
            old(self).spec_completed() ==> r == old(self).spec_task() && r.is_some()
                && final(self).spec_waker() == old(self).spec_waker(),
            !old(self).spec_completed() ==> r.is_none(),
            !old(self).spec_completed() ==> final(self).spec_waker() == Some(waker),
    {
        if self.completed {
            self.task
        } else {
            self.waker = Some(waker);
            None
        }
    }
}

/// The result of a finished engine task: its value, or the exception it raised.
pub fn resolve(result: Value, exception: Option<Value>) -> (r: Result<Value, Value>)
    ensures
        r == match exception {
            None => Ok::<Value, Value>(result),
            Some(e) => Err::<Value, Value>(e),
        },
{
    match exception {
        None => Ok(result),
        Some(e) => Err(e),
    }
}

/// The scheduling functions of the engine's multitasking module.
#[derive(Clone, Copy, Debug, PartialEq, Eq, Structural)]
pub enum Scheduler {
    /// Runs the call on any thread of the engine's pool.
    AsyncCall,
    /// Runs the call on the engine's interactive pool.
    InteractiveCall,
    /// Runs the call as a task pinned to the current thread.
    ScheduleAsyncLocal,
    /// Runs the call as a task on the main thread.
    ScheduleAsync,
    /// Runs a native blocking function on a thread of the pool.
    PostBlocking,
}

impl Scheduler {
    /// The engine's name of the scheduling function.
    pub open spec fn spec_function_name(self) -> Seq<char> {
        match self {
            Scheduler::AsyncCall => "asynccall"@,
            Scheduler::InteractiveCall => "interactivecall"@,
            Scheduler::ScheduleAsyncLocal => "scheduleasynclocal"@,
            Scheduler::ScheduleAsync => "scheduleasync"@,
            Scheduler::PostBlocking => "postblocking"@,
        }
    }

    /// Returns the engine's name of the scheduling function.
    pub fn function_name(&self) -> (r: &'static str)
        ensures
            r@ == self.spec_function_name(),
    {
        match self {
            Scheduler::AsyncCall => "asynccall",
            Scheduler::InteractiveCall => "interactivecall",
            Scheduler::ScheduleAsyncLocal => "scheduleasynclocal",
            Scheduler::ScheduleAsync => "scheduleasync",
            Scheduler::PostBlocking => "postblocking",
        }
    }
}

/// A function together with the keyword arguments it is to be called with.
#[derive(Clone, Copy, Debug)]
pub struct WithKeywords {
    pub function: Value,
    pub keywords: Value,
}

/// The value under which a shared task state is handed to the engine.
pub open spec fn state_value(key: u64) -> Value {
    Value::UInt64(key)
}

/// The arguments of a scheduling call: the function, the shared state's key,
/// then the function's own arguments.
pub open spec fn call_args(func: Value, key: u64, values: Seq<Value>) -> Seq<Value> {
    seq![func, state_value(key)] + values
}

/// A request to the engine: call `scheduler` with `args` (and `keywords`, if
/// any). The engine answers with the task it scheduled, or raises; a raise
/// there is an unrecoverable fault of the embedding.
pub struct ScheduleCall {
    scheduler: Scheduler,
    args: CallArgs,
    keywords: Option<Value>,
}

impl ScheduleCall {
    /// The scheduling function to call.
    pub closed spec fn spec_scheduler(&self) -> Scheduler {
        self.scheduler
    }

    /// Its arguments, in order.
    pub closed spec fn spec_args(&self) -> Seq<Value> {
        arg_values(self.args)
    }

    /// The keyword arguments to provide, if any.
    pub closed spec fn spec_keywords(&self) -> Option<Value> {
        self.keywords
    }

    /// Returns the scheduling function to call.
    pub fn scheduler(&self) -> (r: Scheduler)
        ensures
            r == self.spec_scheduler(),
    {
        self.scheduler
    }

    /// Returns the arguments, in order.
    pub fn args(&self) -> (r: &[Value])
        ensures
            r@ == self.spec_args(),
    {
        args_as_slice(&self.args)
    }

    /// Returns the keyword arguments to provide, if any.
    pub fn keywords(&self) -> (r: Option<Value>)
        ensures
            r == self.spec_keywords(),
    {
        self.keywords
    }

    fn schedule(
        stack: &mut Stack,
        frame: &Frame,
        scheduler: Scheduler,
        func: Value,
        key: u64,
        values: &[Value],
        keywords: Option<Value>,
    ) -> (r: ScheduleCall)
        requires
            frame.spec_base() <= old(stack)@.len(),
        ensures
            final(stack)@ == old(stack)@.push(state_value(key)),
            r.spec_scheduler() == scheduler,
            r.spec_args() == call_args(func, key, values@),
            r.spec_keywords() == keywords,
    {
        let state = stack.root(frame, Value::UInt64(key));
        let mut args = args_new();
        args_push(&mut args, func);
        args_push(&mut args, state);
        args_extend(&mut args, values);
        assert(arg_values(args) =~= call_args(func, key, values@));
        ScheduleCall { scheduler, args, keywords }
    }

    /// Schedules `func(values...)` on any thread of the engine's pool, for the
    /// shared state with key `key`; the state's key is rooted in `frame`.
    pub fn new(stack: &mut Stack, frame: &Frame, func: Value, key: u64, values: &[Value]) -> (r: ScheduleCall)
        requires
            frame.spec_base() <= old(stack)@.len(),
        ensures
            final(stack)@ == old(stack)@.push(state_value(key)),
            r.spec_scheduler() == Scheduler::AsyncCall,
            r.spec_args() == call_args(func, key, values@),
            r.spec_keywords().is_none(),
    {
        Self::schedule(stack, frame, Scheduler::AsyncCall, func, key, values, None)
    }

    /// As `new`, on the engine's interactive pool.
    pub fn new_interactive(stack: &mut Stack, frame: &Frame, func: Value, key: u64, values: &[Value]) -> (r:
        ScheduleCall)
        requires
            frame.spec_base() <= old(stack)@.len(),
        ensures
            final(stack)@ == old(stack)@.push(state_value(key)),
            r.spec_scheduler() == Scheduler::InteractiveCall,
            r.spec_args() == call_args(func, key, values@),
            r.spec_keywords().is_none(),
    {
        Self::schedule(stack, frame, Scheduler::InteractiveCall, func, key, values, None)
    }

    /// As `new`, as a task pinned to the current thread.
    pub fn new_local(stack: &mut Stack, frame: &Frame, func: Value, key: u64, values: &[Value]) -> (r:
        ScheduleCall)
        requires
            frame.spec_base() <= old(stack)@.len(),
        ensures
            final(stack)@ == old(stack)@.push(state_value(key)),
            r.spec_scheduler() == Scheduler::ScheduleAsyncLocal,
            r.spec_args() == call_args(func, key, values@),
            r.spec_keywords().is_none(),
    {
        Self::schedule(stack, frame, Scheduler::ScheduleAsyncLocal, func, key, values, None)
    }

    /// As `new`, as a task on the main thread.
    pub fn new_main(stack: &mut Stack, frame: &Frame, func: Value, key: u64, values: &[Value]) -> (r:
        ScheduleCall)
        requires
            frame.spec_base() <= old(stack)@.len(),
        ensures
            final(stack)@ == old(stack)@.push(state_value(key)),
            r.spec_scheduler() == Scheduler::ScheduleAsync,
            r.spec_args() == call_args(func, key, values@),
            r.spec_keywords().is_none(),
    {
        Self::schedule(stack, frame, Scheduler::ScheduleAsync, func, key, values, None)
    }

    /// Posts the native blocking function `fn_ptr` with its task `task_ptr` to
    /// a thread of the pool: the arguments are the function, the task and the
    /// shared state's key, which is rooted in `frame`.
    pub fn new_posted(stack: &mut Stack, frame: &Frame, fn_ptr: Value, task_ptr: Value, key: u64) -> (r:
        ScheduleCall)
        requires
            frame.spec_base() <= old(stack)@.len(),
        ensures
            final(stack)@ == old(stack)@.push(state_value(key)),
            r.spec_scheduler() == Scheduler::PostBlocking,
            r.spec_args() == seq![fn_ptr, task_ptr, state_value(key)],
            r.spec_keywords().is_none(),
    {
        let state = stack.root(frame, Value::UInt64(key));
        let mut args = args_new();
        args_push(&mut args, fn_ptr);
        args_push(&mut args, task_ptr);
        args_push(&mut args, state);
        assert(arg_values(args) =~= seq![fn_ptr, task_ptr, state_value(key)]);
        ScheduleCall { scheduler: Scheduler::PostBlocking, args, keywords: None }
    }

    /// As `new`, calling `func.function` with `func.keywords`.
    pub fn new_with_keywords(stack: &mut Stack, frame: &Frame, func: WithKeywords, key: u64, values: &[Value]) -> (r:
        ScheduleCall)
        requires
            frame.spec_base() <= old(stack)@.len(),
        ensures
            final(stack)@ == old(stack)@.push(state_value(key)),
            r.spec_scheduler() == Scheduler::AsyncCall,
            r.spec_args() == call_args(func.function, key, values@),
            r.spec_keywords() == Some(func.keywords),
    {
        Self::schedule(stack, frame, Scheduler::AsyncCall, func.function, key, values, Some(func.keywords))
    }

    /// As `new_interactive`, calling `func.function` with `func.keywords`.
    pub fn new_interactive_with_keywords(
        stack: &mut Stack,
        frame: &Frame,
        func: WithKeywords,
        key: u64,
        values: &[Value],
    ) -> (r: ScheduleCall)
        requires
            frame.spec_base() <= old(stack)@.len(),
        ensures
            final(stack)@ == old(stack)@.push(state_value(key)),
            r.spec_scheduler() == Scheduler::InteractiveCall,
            r.spec_args() == call_args(func.function, key, values@),
            r.spec_keywords() == Some(func.keywords),
    {
        Self::schedule(stack, frame, Scheduler::InteractiveCall, func.function, key, values, Some(func.keywords))
    }

    /// As `new_local`, calling `func.function` with `func.keywords`.
    pub fn new_local_with_keywords(
        stack: &mut Stack,
        frame: &Frame,
        func: WithKeywords,
        key: u64,
        values: &[Value],
    ) -> (r: ScheduleCall)
        requires
            frame.spec_base() <= old(stack)@.len(),
        ensures
            final(stack)@ == old(stack)@.push(state_value(key)),
            r.spec_scheduler() == Scheduler::ScheduleAsyncLocal,
            r.spec_args() == call_args(func.function, key, values@),
            r.spec_keywords() == Some(func.keywords),
    {
        Self::schedule(stack, frame, Scheduler::ScheduleAsyncLocal, func.function, key, values, Some(func.keywords))
    }

    /// As `new_main`, calling `func.function` with `func.keywords`.
    pub fn new_main_with_keywords(
        stack: &mut Stack,
        frame: &Frame,
        func: WithKeywords,
        key: u64,
        values: &[Value],
    ) -> (r: ScheduleCall)
        requires
            frame.spec_base() <= old(stack)@.len(),
        ensures
            final(stack)@ == old(stack)@.push(state_value(key)),
            r.spec_scheduler() == Scheduler::ScheduleAsync,
            r.spec_args() == call_args(func.function, key, values@),
            r.spec_keywords() == Some(func.keywords),
    {
        Self::schedule(stack, frame, Scheduler::ScheduleAsync, func.function, key, values, Some(func.keywords))
    }
}

} // verus!
