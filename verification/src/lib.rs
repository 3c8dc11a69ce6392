//! Cooperative, poll-based synchronization primitives: a single-notification
//! barrier channel, a one-shot value transfer, and the waker-notification and
//! single-slot-cell machinery they share, together with the polling contract
//! (`Stream`/`Sink`) that the primitives implement.

pub mod channels;
mod stream;
pub mod sync;

pub use stream::{PollRecv, PollSend, Sink, Stream, TryRecvError};
pub use stream::{future_step, poll_to_try, spec_future_step, spec_poll_to_try};
