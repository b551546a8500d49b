//! Blocking `read` / `write` / `flush` / `seek` access to an I/O resource that
//! is owned by an asynchronous executor task.
//!
//! A [`BridgeBuilder`] selects the capabilities at the type level and splits
//! into an [`Executor`], which owns the resource, and an [`IOBridge`], the
//! blocking facade. The two talk over a pair of bounded queues, with at most
//! one request in flight; payloads are copied across in a [`Carrier`].

mod agent;
mod bridge;
mod builder;
mod gate;
pub mod laws;
mod protocol;
mod utils;

pub use agent::{Agent, NoopAgent, ReadAgent, SeekAgent, WriteAgent};
pub use bridge::IOBridge;
pub use builder::{BridgeBuilder, Executor, Step, QUEUE_CAPACITY};
pub use gate::Gate;
pub use protocol::{BridgeError, OpKind, Req, Resp, SeekPos, Violation};
pub use utils::{Carrier, Fls, Tru};
