//! Transformation core of a block indexer: from one finalized block to the
//! normalized entities that are handed to storage, in the order in which they
//! are handed over.

pub mod assemble;
pub mod classify;
pub mod dedup;
pub mod entity;
pub mod failure;
pub mod ident;
pub mod laws;
pub mod model;
pub mod text;
pub mod walk;
