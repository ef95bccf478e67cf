//! Decision logic of a single-dispatch GPU compute harness: grid and buffer
//! size arithmetic, the binding layout and its agreement with the kernel, the
//! compile-time overrides, the recorded command sequence, and the state
//! machine of one invocation. The device work itself is performed by the
//! caller, which feeds the outcome of each step back as an event.

pub mod bindings;
pub mod buffers;
pub mod dispatch;
pub mod error;
pub mod grid;
pub mod invocation;
pub mod pipeline;

