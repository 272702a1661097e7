//! Decoding core of a multimodal OCR language model: input validation,
//! embedding lookup, position synthesis, key/value caching and the output
//! projection, together with the runtime and configuration types around them.

pub mod backend;
pub mod shape;
pub mod runtime;
pub mod vfs;
pub mod registry;
pub mod config;
pub mod model_config;
pub mod transformer;
pub mod test_utils;
