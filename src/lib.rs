//! Chunk type identifiers of tagged binary containers: four bytes whose
//! letter case carries four property flags.
pub mod chunk_type;

pub use chunk_type::{ChunkType, ChunkTypeError};
