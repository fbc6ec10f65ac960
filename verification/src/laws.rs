//! What the operations of the bridge promise, told of their inputs and results alone.
//!
//! A law speaks of calls: `call_ensures(f, arguments, result)` says that `result` came of calling
//! `f` with `arguments`. It holds of every such call, and what it says of the result does not
//! go through the definitions by which the operation itself is specified.

pub mod bridge;
pub mod chat;
pub mod memory;
pub mod places;
pub mod replies;
pub mod settings;
pub mod turns;
pub mod wire;
pub mod words;
