//! A model of a bridge between a memory-safe caller and a native GUI toolkit
//! that lives behind a C-compatible boundary.
//!
//! The crate states the bridge contract and proves the caller-side wrappers
//! against it: the single-slot error channel, the main-thread rule, the
//! hand-over of text and of borrowed arrays, and the life of opaque handles.

pub mod text;
pub mod scalar;
pub mod boundary;
pub mod error;
pub mod appkit;
pub mod laws;
