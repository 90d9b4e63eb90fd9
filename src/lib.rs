//! Loading of build-artifact cache manifests.
//!
//! A manifest names the artifacts of a repository, the files each one depends
//! on (its inputs) and the files it produces (its outputs), and where the cache
//! lives. The library turns the decoded content of a manifest file into a
//! validated [`Manifest`]: artifact names are unique, declaration order is
//! kept, and the manifest file itself is the last input of every artifact.

pub mod cache;
pub mod config;
pub mod error;

pub use cache::Artifact;
pub use config::{ArtifactDecl, Manifest, ManifestDecl, ReadOutcome};
pub use error::{Error, ErrorKind};
