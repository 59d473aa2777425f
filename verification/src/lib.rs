//! A virtual module that lists the chunks needed to load another module.
//!
//! Given a module of the bundler's graph, a serving root and a chunking
//! context, [`with_chunks::WithChunksAsset`] stands for a generated module
//! that exports the paths of all chunks of the wrapped module's chunk group,
//! relative to the serving root, so that a client runtime can preload them.

pub mod chunk;
pub mod content;
pub mod ident;
pub mod join;
pub mod json;
pub mod path;
pub mod with_chunks;
