use jlrs::error::{JlrsError, JlrsResult};
use jlrs::stack::{Frame, Stack};
use jlrs::value::Value;

fn nested(stack: Stack, depth: usize, fail_at: usize) -> (Stack, JlrsResult<()>) {
    stack.scope(move |mut stack: Stack, frame: Frame| {
        stack.root(&frame, Value::UInt64(depth as u64));
        stack.root(&frame, Value::Nothing);
        if depth == fail_at {
            return (stack, Err(JlrsError::Task(String::from("failed"))));
        }
        if depth == 0 {
            return (stack, Ok(()));
        }
        nested(stack, depth - 1, fail_at)
    })
}

#[test]
fn nested_scopes_restore_the_stack() {
    let mut stack = Stack::new();
    let base = stack.base();
    stack.root(&base, Value::Bool(true));
    let (stack, res) = nested(stack, 6, usize::MAX);
    assert!(res.is_ok());
    assert_eq!(stack.size(), 1);
    assert_eq!(stack.get(0), Value::Bool(true));
}

#[test]
fn nested_scopes_restore_the_stack_after_an_error() {
    let stack = Stack::new();
    let (stack, res) = nested(stack, 6, 3);
    assert!(matches!(res, Err(JlrsError::Task(_))));
    assert_eq!(stack.size(), 0);
}

#[test]
fn reconstruct_discards_later_growth() {
    let mut stack = Stack::new();
    let base = stack.base();
    stack.root(&base, Value::Int8(1));
    let inner = stack.nest();
    assert_eq!(inner.base_offset(), 1);
    stack.root(&inner, Value::Int8(2));
    stack.root(&inner, Value::Int8(3));
    assert_eq!(stack.size(), 3);
    let again = stack.reconstruct(1);
    assert_eq!(again.base_offset(), 1);
    assert_eq!(stack.size(), 1);
    stack.pop_frame(base);
    assert_eq!(stack.size(), 0);
}
