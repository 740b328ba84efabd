//! Storage-side backend of a container-image registry.
//!
//! The library tracks in-flight uploads of content-addressable blobs in a
//! session registry, resolves committed layers to filesystem paths, and
//! shapes the responses of the remote operations that expose both. All
//! filesystem and transport work stays with the caller; the library works
//! on plain values and is verified.

pub mod blob;
pub mod layer;
pub mod laws;
pub mod messages;
pub mod paths;
pub mod registry;
