//! Scoped rooting of engine values and the bridge between the engine's task
//! scheduler and host asynchronous code, with their contracts proved.

pub mod align;
pub mod channel;
pub mod envelope;
pub mod error;
pub mod future;
pub mod persistent;
pub mod stack;
pub mod value;
