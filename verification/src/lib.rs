//! Lossless recompression of gzip files.
//!
//! A gzip stream is decoded, its payload is encoded again by a stronger
//! encoder, and the new stream replaces the old one only where it is strictly
//! shorter. Reading and writing files, measuring time and printing are left to
//! the caller: every function here maps plain values to plain values.

pub mod args;
pub mod codec;
pub mod number;
pub mod pipeline;
pub mod report;
