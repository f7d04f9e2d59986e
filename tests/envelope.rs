use std::cell::RefCell;
use std::rc::Rc;

use jlrs::channel::OneshotSender;
use jlrs::envelope::{
    AsyncTask, BlockingTask, IncludeTask, PendingTask, RegisterTask, SetErrorColorTask, Task,
};
use jlrs::error::{JlrsError, JlrsResult};
use jlrs::stack::{Frame, Stack};
use jlrs::value::Value;

struct Slot<M>(Rc<RefCell<Option<M>>>);

impl<M> OneshotSender<M> for Slot<M> {
    fn send(self, msg: M) {
        *self.0.borrow_mut() = Some(msg);
    }
}

fn slot<M>() -> (Slot<M>, Rc<RefCell<Option<M>>>) {
    let cell = Rc::new(RefCell::new(None));
    (Slot(cell.clone()), cell)
}

struct Answer(i64);

impl AsyncTask for Answer {
    type Output = i64;

    fn run(&mut self, mut stack: Stack, frame: Frame) -> (Stack, JlrsResult<i64>) {
        let v = stack.root(&frame, Value::Int64(self.0));
        let res = v.unbox_i64();
        if self.0 < 0 {
            return (stack, Err(JlrsError::Exception(Value::Object(1))));
        }
        (stack, res)
    }

    fn register(stack: Stack, _frame: Frame) -> (Stack, JlrsResult<()>) {
        (stack, Ok(()))
    }
}

#[test]
fn one_shot_envelope_sends_the_result_and_empties_the_stack() {
    let (tx, rx) = slot();
    let envelope = PendingTask::<_, Answer, Task>::new(Answer(42), tx);
    let stack = envelope.dispatch(Stack::new());
    assert_eq!(stack.size(), 0);
    assert!(matches!(*rx.borrow(), Some(Ok(42))));
}

#[test]
fn one_shot_envelope_sends_the_error_and_empties_the_stack() {
    let (tx, rx) = slot();
    let envelope = PendingTask::<_, Answer, Task>::new(Answer(-1), tx);
    let stack = envelope.dispatch(Stack::new());
    assert_eq!(stack.size(), 0);
    assert!(matches!(*rx.borrow(), Some(Err(JlrsError::Exception(Value::Object(1))))));
}

#[test]
fn register_envelope_reports() {
    let (tx, rx) = slot();
    let envelope = PendingTask::<_, Answer, RegisterTask>::new(tx);
    let stack = envelope.dispatch(Stack::new());
    assert_eq!(stack.size(), 0);
    assert!(matches!(*rx.borrow(), Some(Ok(()))));
}

#[test]
fn blocking_task_runs_its_closure_in_the_base_frame() {
    let (tx, rx) = slot();
    let task = BlockingTask::new(
        |mut stack: Stack, frame: Frame| {
            assert_eq!(frame.base_offset(), 0);
            stack.root(&frame, Value::UInt8(1));
            stack.root(&frame, Value::UInt8(2));
            let n = stack.size();
            (stack, Ok(n))
        },
        tx,
    );
    let stack = task.dispatch(Stack::new());
    assert_eq!(stack.size(), 0);
    assert!(matches!(*rx.borrow(), Some(Ok(2))));
}

#[test]
fn file_loading_maps_the_engine_outcome() {
    let ok = IncludeTask::<Slot<JlrsResult<()>>>::call_inner(Some(String::from("a.jl")), |p: String| {
        assert_eq!(p, "a.jl");
        Ok(Ok(Value::Nothing))
    });
    assert!(ok.is_ok());
    let raised = IncludeTask::<Slot<JlrsResult<()>>>::call_inner(Some(String::from("b.jl")), |_p: String| {
        Ok(Err(Value::Object(5)))
    });
    assert!(matches!(raised, Err(JlrsError::IncludeError(Value::Object(5)))));
    let missing = IncludeTask::<Slot<JlrsResult<()>>>::call_inner(Some(String::from("c.jl")), |_p: String| {
        Err(JlrsError::GlobalNotFound { name: String::from("include") })
    });
    assert!(matches!(missing, Err(JlrsError::GlobalNotFound { .. })));
    let invalid = IncludeTask::<Slot<JlrsResult<()>>>::call_inner(None, |_p: String| -> JlrsResult<Result<Value, Value>> {
        panic!("not called for an invalid path")
    });
    assert!(invalid.is_ok());

    let (tx, rx) = slot();
    IncludeTask::new(Some(String::from("d.jl")), tx).dispatch(|_p: String| Ok(Err(Value::Object(8))));
    assert!(matches!(*rx.borrow(), Some(Err(JlrsError::IncludeError(Value::Object(8))))));
}

#[test]
fn error_color_stores_the_flag() {
    let seen = Rc::new(RefCell::new(None));
    let s = seen.clone();
    let (tx, rx) = slot();
    SetErrorColorTask::new(true, tx).dispatch(move |v: Value| {
        *s.borrow_mut() = Some(v);
        Ok(())
    });
    assert_eq!(*seen.borrow(), Some(Value::Bool(true)));
    assert!(matches!(*rx.borrow(), Some(Ok(()))));
    let res = SetErrorColorTask::<Slot<JlrsResult<()>>>::call_inner(false, |v: Value| {
        assert_eq!(v, Value::Bool(false));
        Err(JlrsError::Unavailable)
    });
    assert!(matches!(res, Err(JlrsError::Unavailable)));
}

#[test]
fn one_shot_call_hands_back_the_result_and_its_channel() {
    let (tx, rx) = slot::<JlrsResult<i64>>();
    let envelope = PendingTask::<_, Answer, Task>::new(Answer(7), tx);
    let (stack, res, sender) = envelope.call(Stack::new());
    assert_eq!(stack.size(), 0);
    assert!(matches!(res, Ok(7)));
    assert!(rx.borrow().is_none());
    sender.send(res);
    assert!(matches!(*rx.borrow(), Some(Ok(7))));
}
