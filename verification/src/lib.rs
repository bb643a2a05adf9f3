//! A deferred-execution image transformation pipeline.
//!
//! The pipeline owns a single image payload and an ordered queue of
//! transformation requests. Configuration calls enqueue operations without
//! running them; a terminal call drains the queue in first-in-first-out order
//! against the payload and produces encoded bytes, optionally passed through a
//! lossless PNG size optimizer. Decoding, encoding and the pixel-level work
//! are delegated to external codec and optimizer engines.

pub mod codec;
pub mod error;
pub mod format;
pub mod ops;
pub mod processor;
pub mod optimizer;
pub mod raster;
pub mod transformers;
