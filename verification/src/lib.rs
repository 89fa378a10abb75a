//! Codec for the compressed save container of Palworld: the twelve-byte
//! header, the zlib pipeline behind it, and the framing around the
//! save-tree codec that turns the decompressed payload into a tree.

pub mod error;
pub mod header;
pub mod compression;
pub mod tree;
pub mod container;
pub mod session;
