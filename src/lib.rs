//! Supervision of a backend worker process: locating its entry point,
//! deciding each step of a supervision run, waiting for its port, and
//! keeping the single shared status record that observers read.

pub mod status;
pub mod text;
pub mod waiter;
pub mod error;
pub mod resolver;
pub mod interpreter;
pub mod supervisor;
