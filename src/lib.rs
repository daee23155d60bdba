//! Chunk key encodings and codecs for chunked array storage.
//!
//! A chunk key encoding maps a chunk's grid indices to a store key; a
//! registry of plugins creates one from its metadata record, first match
//! first. The `vlen-v2` codec writes variable-length elements and reads them
//! back, in full or by ranges, under several public names.

pub mod chunk_key_encoding;
pub mod codec;
pub mod decimal;
pub mod metadata;
pub mod plugin;
pub mod store_key;
pub mod vlen_v2;
