//! Packaging of a mod project directory into a versioned archive.
//!
//! A build reads the identity of the mod from its manifest, resolves where the
//! artifact goes, walks the project directory, and puts every entry that the
//! traversal filter lets through into a compressed archive, under one
//! top-level segment named after the mod and its version.
//!
//! The library decides; it does not act. `manifest` reads the identity,
//! `filter` holds the exclusion policy, `path` maps source paths to archive
//! paths, `entry` plans what the archive gets, and `pipeline` puts them in
//! sequence as a machine whose requests a driver carries out. `scaffold` lays
//! out a new project, and `text` holds what the others need of texts.

pub mod entry;
pub mod error;
pub mod filter;
pub mod manifest;
pub mod path;
pub mod pipeline;
pub mod scaffold;
pub mod text;
