//! Debounced filesystem change detection.
//!
//! A [`FileWatcher`] keeps a recursive watch on one root path alive and answers
//! a single question: has anything under that path been modified since the
//! last poll? Raw notifications are filtered by kind and rate limited before
//! they reach the consumer:
//!
//! * [`clock`] reads the monotonic clock as plain nanoseconds;
//! * [`event`] decides which kinds of raw events are content changes;
//! * [`debounce`] forwards a content change only when a full window has
//!   passed since the last forwarded one, and proves what that means for
//!   bursts and for paced activity;
//! * [`signal`] is the message and the queue between the watch callback and
//!   the consumer;
//! * [`error`] says why a watch could not be set up;
//! * [`watcher`] ties them to the operating system's notification source.

pub mod clock;
pub mod debounce;
pub mod error;
pub mod event;
pub mod signal;
pub mod watcher;

pub use error::FileWatcherError;
pub use signal::ChangeMessage;
pub use watcher::{start_watch, FileWatcher};
