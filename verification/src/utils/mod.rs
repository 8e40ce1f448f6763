//! Shared load-time state: document tables and the decode caches.

pub mod gltf_data;

pub use gltf_data::GltfData;
