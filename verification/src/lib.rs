//! A FIFO queue that keeps zero or one element in place and only moves to a
//! heap-backed deque while it holds two or more.
//!
//! * [`model`] says what the queue's operations mean on a sequence of
//!   elements, oldest first.
//! * [`queue`] is the queue itself; its contracts are stated over the model.
//! * [`laws`] proves what follows for runs of calls: first in, first out; the
//!   count of what is left; removals from an empty queue.
//! * [`listing`] writes a queue out as text.

pub mod laws;
pub mod listing;
pub mod model;
pub mod queue;

pub use queue::SmallQueue;
