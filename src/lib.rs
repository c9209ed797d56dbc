//! Singly-linked list variants: owning stacks, mutable queues and a
//! persistent list whose nodes are shared through reference counting.
//!
//! - `first`: a stack of `i32` values.
//! - `second`: a generic stack with iterators.
//! - `third`: a persistent list whose lists share their tails.
//! - `fifth`: a queue reached through `Box` and `&mut` alone.
//! - `fifth_unsafe`: a queue with constant-time push.

mod teardown;
pub mod fifth;
pub mod fifth_unsafe;
pub mod first;
pub mod second;
pub mod third;
