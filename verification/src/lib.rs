//! Index algebra and shape rules of disentangled self-attention.
//!
//! The layer scores every query position against every key position from
//! three sources: the content of both, the content of the query against the
//! relative position of the key, and the relative position of the query
//! against the content of the key. The dense arithmetic is left to an array
//! engine; this crate decides what the engine is asked to do: which rows of
//! the fused projection weight serve queries, keys and values, which window
//! of the relative embeddings takes part, and which index tensors pick the
//! position scores that belong to each pair of positions.

pub mod bias;
pub mod error;
pub mod forward;
pub mod index;
pub mod kinds;
pub mod laws;
pub mod layer;
pub mod rows;
pub mod shape;
pub mod span;
pub mod table;
