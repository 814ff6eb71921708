//! Synchronization primitives and a cooperative multi-wait scheduling model
//! for a robot controller runtime.
//!
//! Every primitive is a state machine over task identifiers and millisecond
//! timestamps. The host runtime performs the actual blocking, waking and
//! clock reads, and hands the outcomes to these verified transitions.

pub mod broadcast;
pub mod competition;
pub mod cstring;
pub mod error;
pub mod event;
pub mod mutex;
pub mod periodic;
pub mod promise;
pub mod select;
pub mod sleep;
pub mod smart_port;

pub use broadcast::{Broadcast, BroadcastListener};
pub use competition::{Action, Competition, Context, Phase, Stage};
pub use cstring::nul_terminated;
pub use error::Error;
pub use event::{Event, TaskId, Waiter};
pub use mutex::{Mutex, MutexGuard};
pub use periodic::Loop;
pub use promise::{Promise, PromiseData, Resolver};
pub use select::{blocking_wait, select_next, Poll};
pub use sleep::{merge_all, GenericSleep};
pub use smart_port::SmartPort;
