//! The coordination logic of a fixed-size pool of worker threads, and the
//! request handling of the small static web server built on it.
//!
//! `queue` is the FIFO of units of work shared by the workers, `pool` the
//! pool's lifecycle (size check, submission, teardown in ordinal order),
//! `spawn` the bounded retry when a worker's thread cannot be started, and
//! `http` the mapping of a request line to a page and the framing of the
//! response. Threads, locks and sockets are left to the caller.

pub mod error;
pub mod http;
pub mod pool;
pub mod queue;
pub mod spawn;

pub use error::PoolCreationError;
pub use http::{frame_response, route, Route};
pub use pool::{PoolLifecycle, SubmitError};
pub use queue::{JobQueue, Received};
pub use spawn::{after_spawn_failure, SpawnDecision, MAX_SPAWN_RETRIES};
