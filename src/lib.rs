//! Small concurrency toolkit: a shareable mutable cell, non-blocking channel
//! operations over an unbounded queue, and a recursive directory walker whose
//! decisions are made by a state machine.
pub mod cell;
pub mod channel;
pub mod tree;
pub mod walk;
