//! A registry-like server that builds container images on demand: the
//! verified core of its digest handling, its replies to the OCI pull
//! endpoints, and what it reads from buildah's output.
pub mod buildah;
pub mod config;
pub mod digest;
pub mod json;
pub mod registry;
pub mod text;
