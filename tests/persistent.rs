use std::cell::RefCell;
use std::rc::Rc;

use jlrs::channel::{OneshotSender, RequestChannel};
use jlrs::envelope::{
    CallPersistentTask, PendingTask, Persistent, PersistentComms, PersistentTask, PersistentWorker, Served,
};
use jlrs::error::{JlrsError, JlrsResult};
use jlrs::persistent::{submit, LoopAction, LoopEvent, Phase, PersistentLoop};
use jlrs::stack::{Frame, Stack};
use jlrs::value::Value;

struct Slot<M>(Rc<RefCell<Option<M>>>);

impl<M> OneshotSender<M> for Slot<M> {
    fn send(self, msg: M) {
        *self.0.borrow_mut() = Some(msg);
    }
}

fn slot<M>() -> (Slot<M>, Rc<RefCell<Option<M>>>) {
    let cell = Rc::new(RefCell::new(None));
    (Slot(cell.clone()), cell)
}

/// Adds each input to a running total; counts how often `init` ran.
struct Accumulator {
    inits: Rc<RefCell<u32>>,
    seen: Rc<RefCell<Vec<u64>>>,
    fail_init: bool,
}

impl PersistentTask for Accumulator {
    type State = u64;
    type Input = u64;
    type Output = u64;

    fn channel_capacity() -> usize {
        1
    }

    fn init(&mut self, mut stack: Stack, frame: Frame) -> (Stack, JlrsResult<u64>) {
        *self.inits.borrow_mut() += 1;
        stack.root(&frame, Value::Nothing);
        if self.fail_init {
            (stack, Err(JlrsError::Task(String::from("no state"))))
        } else {
            (stack, Ok(0))
        }
    }

    fn run(&mut self, mut stack: Stack, frame: Frame, state: &mut u64, input: u64) -> (Stack, JlrsResult<u64>) {
        stack.root(&frame, Value::UInt64(input));
        self.seen.borrow_mut().push(input);
        *state += input;
        (stack, Ok(*state))
    }

    fn exit(&mut self, stack: Stack, _frame: Frame, state: &mut u64) -> Stack {
        *state = 0;
        stack
    }

    fn register(stack: Stack, _frame: Frame) -> (Stack, JlrsResult<()>) {
        (stack, Ok(()))
    }
}

#[test]
fn loop_goes_through_its_phases() {
    let (mut lp, first) = PersistentLoop::new();
    assert_eq!(first, LoopAction::RunInit);
    assert_eq!(lp.phase(), Phase::Initializing);
    assert_eq!(lp.step(LoopEvent::Request), LoopAction::Ignore);
    assert_eq!(lp.step(LoopEvent::InitSucceeded { offset: 2 }), LoopAction::PublishHandle);
    assert_eq!(lp.step(LoopEvent::Request), LoopAction::Serve { offset: 2 });
    assert_eq!(lp.step(LoopEvent::InitSucceeded { offset: 9 }), LoopAction::Ignore);
    assert_eq!(lp.step(LoopEvent::ChannelClosed), LoopAction::RunExit { offset: 2 });
    assert_eq!(lp.step(LoopEvent::ExitFinished), LoopAction::Stop);
    assert_eq!(lp.phase(), Phase::Terminated);
}

#[test]
fn failed_init_never_runs() {
    let (mut lp, _) = PersistentLoop::new();
    assert_eq!(lp.step(LoopEvent::InitFailed), LoopAction::ReportInitError);
    assert_eq!(lp.phase(), Phase::Terminated);
    assert_eq!(lp.step(LoopEvent::Request), LoopAction::Ignore);
}

#[test]
fn init_runs_once_and_requests_are_served_in_order() {
    let inits = Rc::new(RefCell::new(0));
    let seen = Rc::new(RefCell::new(Vec::new()));
    let task = Accumulator { inits: inits.clone(), seen: seen.clone(), fail_init: false };
    let (handle_tx, handle_rx) = slot::<JlrsResult<&str>>();
    let envelope =
        PendingTask::<PersistentComms<&str, Accumulator, Slot<JlrsResult<&str>>>, Accumulator, Persistent>::new(task, PersistentComms::new(handle_tx));
    let (mut stack, worker) = envelope.call(Stack::new(), "handle");
    let mut worker = worker.expect("init succeeded");
    assert!(matches!(*handle_rx.borrow(), Some(Ok("handle"))));
    assert_eq!(worker.phase(), Phase::Running);
    assert_eq!(stack.size(), 1);

    let mut ch = RequestChannel::new(Accumulator::channel_capacity());
    let mut replies = Vec::new();
    for input in [3u64, 4, 5] {
        let (tx, rx) = slot();
        let mut request = CallPersistentTask::new(input, tx);
        loop {
            match submit(&mut ch, request) {
                Ok(None) => break,
                Ok(Some(back)) => {
                    request = back;
                    let (s, served) = worker.serve(stack, &mut ch);
                    stack = s;
                    assert_eq!(served, Served::Answered);
                }
                Err(e) => panic!("unexpected {:?}", e),
            }
        }
        replies.push(rx);
    }
    let (s, served) = worker.serve(stack, &mut ch);
    stack = s;
    assert_eq!(served, Served::Answered);
    let (s, served) = worker.serve(stack, &mut ch);
    stack = s;
    assert_eq!(served, Served::Waiting);
    assert_eq!(stack.size(), 2);

    ch.close_senders();
    let (s, served) = worker.serve(stack, &mut ch);
    assert_eq!(served, Served::Finished);
    assert_eq!(s.size(), 0);
    assert_eq!(worker.phase(), Phase::Terminated);

    let answers: Vec<u64> = replies.iter().map(|r| r.borrow_mut().take().unwrap().unwrap()).collect();
    assert_eq!(answers, vec![3, 7, 12]);
    assert_eq!(*seen.borrow(), vec![3, 4, 5]);
    assert_eq!(*inits.borrow(), 1);
}

#[test]
fn failed_init_reports_the_error() {
    let inits = Rc::new(RefCell::new(0));
    let task = Accumulator { inits: inits.clone(), seen: Rc::new(RefCell::new(Vec::new())), fail_init: true };
    let (handle_tx, handle_rx) = slot::<JlrsResult<u8>>();
    let envelope =
        PendingTask::<PersistentComms<u8, Accumulator, Slot<JlrsResult<u8>>>, Accumulator, Persistent>::new(task, PersistentComms::new(handle_tx));
    let (stack, worker) = envelope.call(Stack::new(), 1);
    assert!(worker.is_none());
    assert_eq!(stack.size(), 0);
    assert!(matches!(*handle_rx.borrow(), Some(Err(JlrsError::Task(_)))));
    assert_eq!(*inits.borrow(), 1);
}

/// Releases everything, its own frame's base included, on each request.
struct Careless {
    exited: Rc<RefCell<bool>>,
}

impl PersistentTask for Careless {
    type State = ();
    type Input = u8;
    type Output = u8;

    fn channel_capacity() -> usize {
        4
    }

    fn init(&mut self, mut stack: Stack, frame: Frame) -> (Stack, JlrsResult<()>) {
        stack.root(&frame, Value::Nothing);
        (stack, Ok(()))
    }

    fn run(&mut self, mut stack: Stack, _frame: Frame, _state: &mut (), input: u8) -> (Stack, JlrsResult<u8>) {
        stack.pop_frame(Frame::at_base());
        (stack, Ok(input))
    }

    fn exit(&mut self, stack: Stack, _frame: Frame, _state: &mut ()) -> Stack {
        *self.exited.borrow_mut() = true;
        stack
    }

    fn register(stack: Stack, _frame: Frame) -> (Stack, JlrsResult<()>) {
        (stack, Ok(()))
    }
}

#[test]
fn a_lost_frame_is_reported_and_exit_still_runs() {
    let exited = Rc::new(RefCell::new(false));
    let (handle_tx, _handle_rx) = slot::<JlrsResult<()>>();
    let envelope = PendingTask::<PersistentComms<(), Careless, Slot<JlrsResult<()>>>, Careless, Persistent>::new(
        Careless { exited: exited.clone() },
        PersistentComms::new(handle_tx),
    );
    let (stack, worker) = envelope.call(Stack::new(), ());
    let mut worker = worker.unwrap();
    let mut ch = RequestChannel::new(Careless::channel_capacity());
    let (tx1, rx1) = slot();
    let (tx2, rx2) = slot();
    assert!(matches!(submit(&mut ch, CallPersistentTask::new(1u8, tx1)), Ok(None)));
    assert!(matches!(submit(&mut ch, CallPersistentTask::new(2u8, tx2)), Ok(None)));
    let (stack, _) = worker.serve(stack, &mut ch);
    assert!(matches!(*rx1.borrow(), Some(Ok(1))));
    assert_eq!(stack.size(), 0);
    let (stack, _) = worker.serve(stack, &mut ch);
    assert!(matches!(*rx2.borrow(), Some(Err(JlrsError::FrameLost))));
    ch.close_senders();
    let (stack, served) = worker.serve(stack, &mut ch);
    assert_eq!(served, Served::Finished);
    assert_eq!(stack.size(), 0);
    assert!(*exited.borrow());
    assert!(!ch.receiver_open());
    let (tx3, rx3) = slot();
    assert!(matches!(submit(&mut ch, CallPersistentTask::new(3u8, tx3)), Err(JlrsError::Unavailable)));
    assert!(rx3.borrow().is_none());
}

#[test]
fn start_decides_on_the_result_of_init() {
    let task = Careless { exited: Rc::new(RefCell::new(false)) };
    let mut stack = Stack::new();
    let base = stack.base();
    stack.root(&base, Value::Nothing);
    let (stack, worker, reply) = PersistentWorker::start(task, stack, Ok(()), 5u8);
    assert!(matches!(reply, Ok(5)));
    assert_eq!(stack.size(), 1);
    assert_eq!(worker.unwrap().phase(), Phase::Running);

    let task = Careless { exited: Rc::new(RefCell::new(false)) };
    let mut stack = Stack::new();
    stack.root(&base, Value::Nothing);
    let (stack, worker, reply) =
        PersistentWorker::start(task, stack, Err(JlrsError::Task(String::from("bad"))), 5u8);
    assert!(matches!(reply, Err(JlrsError::Task(_))));
    assert_eq!(stack.size(), 0);
    assert!(worker.is_none());
}

#[test]
fn a_lost_frame_reply_goes_to_its_own_request() {
    let task = Careless { exited: Rc::new(RefCell::new(false)) };
    let (stack, worker, _) = PersistentWorker::start(task, Stack::new(), Ok(()), ());
    let mut worker = worker.unwrap();
    let mut ch = RequestChannel::new(2);
    let (tx1, rx1) = slot();
    assert!(matches!(submit(&mut ch, CallPersistentTask::new(1u8, tx1)), Ok(None)));
    // The worker's frames start at 0; nothing is lost yet.
    let (stack, served, reply) = worker.serve_turn(stack, &mut ch);
    assert_eq!(served, Served::Answered);
    let (sender, res) = reply.unwrap();
    assert!(matches!(res, Ok(1)));
    assert!(rx1.borrow().is_none());
    sender.send(res);
    assert!(matches!(*rx1.borrow(), Some(Ok(1))));
    assert_eq!(stack.size(), 0);
}

