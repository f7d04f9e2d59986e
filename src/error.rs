//! Errors reported by the library.
use crate::value::{DataType, Value};
use vstd::prelude::*;

verus! {

/// Everything that can go wrong in a call that the library hands back as a value.
#[derive(Debug)]
pub enum JlrsError {
    /// A value was read as a type other than its own.
    WrongType { expected: DataType, found: DataType },
    /// The engine raised an exception; the payload is the exception object.
    Exception(Value),
    /// Including a source file raised the exception that is carried.
    IncludeError(Value),
    /// A module has no global of the requested name.
    GlobalNotFound { name: String },
    /// The task behind a handle has exited, so the request cannot be delivered.
    Unavailable,
    /// The stack no longer reaches the frame that a persistent task's
    /// requests are served in: a task body released slots it did not own.
    FrameLost,
    /// A task body reported its own failure.
    Task(String),
}

/// The result of an operation of the library.
pub type JlrsResult<T> = Result<T, JlrsError>;

} // verus!
