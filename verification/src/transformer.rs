//! The language model: cache, decoder stack and the model around them.

pub mod attention;
pub mod cache;
pub mod decoder;
pub mod embedding;
pub mod error;
pub mod model;
pub mod positions;
pub mod projection;
