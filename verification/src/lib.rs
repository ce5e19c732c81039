//! Bookkeeping for GPU command pools and the command buffers allocated from them.
//!
//! A backend hands out raw pool and buffer handles and expects its caller to use them in a
//! fixed order: a buffer is recorded, then submitted, then reset or freed; a pool is destroyed
//! only after its buffers are gone. This crate keeps that order. It makes no backend call
//! itself: each operation takes what the backend returned, or gives back what the backend is
//! to be called with, and its contract says how the pool or buffer changes.

pub mod buffer;
pub mod capability;
pub mod level;
pub mod outside;
pub mod owning;
pub mod pool;
pub mod reset;
pub mod state;
