//! Chunk addressing for a chunk-based binary container format.
//!
//! A container file is a sequence of self-describing records ("chunks"),
//! each prefixed by a fixed-size header declaring its own length, the
//! chunk's total length, and a type tag. This crate provides the addressing
//! primitive built on those declared fields: where a chunk's payload
//! begins, where the chunk ends, and how a payload-relative offset
//! translates to an absolute file offset — with every derived address
//! checked against the chunk's declared extent and against overflow.

pub mod chunk_header;
