//! A name-keyed asset manager for a GPU rendering backend.
//!
//! The manager owns two caches, one for meshes and one for textures, each
//! keyed by a string name, together with a backend selector. Loading an asset
//! hands the raw data to the GPU backend and stores the returned handle under
//! the given name; lookups return the cached handle, and a renderable
//! fragment is assembled on demand from previously cached assets.

pub mod backend;
pub mod cache;
pub mod kind;
pub mod manager;
