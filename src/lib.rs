//! Ownership-checked handles over a codec library's context lifecycle.
//!
//! A codec context goes through three stages: allocated (`Context`), opened
//! (`Opened`) and specialised (`Decoder` / `Encoder`). Every native entry
//! point that the lifecycle uses (allocate, free, copy, open, close) goes
//! through a `Native` value, which keeps the table of contexts, the read-only
//! codec registry, and the log of every native call made. The contracts of
//! this crate are stated over that model.

pub mod codec;
pub mod context;
pub mod dictionary;
pub mod error;
pub mod lifecycle;
pub mod media;
pub mod native;
