//! The decisions of the blocking clients; their serial I/O and timing are
//! left to the caller.
pub mod simple_client;
