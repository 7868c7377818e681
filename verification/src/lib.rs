//! A bounded-batch columnar streaming library.
//!
//! The library holds a synthetic, in-memory columnar dataset and turns it
//! into an ordered stream of wire frames: a deterministic batch builder, a
//! chunker that bounds every batch's row count, a process-lifetime dataset
//! snapshot, a pull-driven frame stream over the Arrow Flight wire encoding,
//! and a service facade whose non-retrieval verbs report that they are not
//! supported.

pub mod batch;
pub mod chunk;
pub mod config;
pub mod errors;
pub mod frames;
pub mod service;
pub mod stream;
