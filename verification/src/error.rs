//! The ways in which a build can fail.

use vstd::prelude::*;

verus! {

/// Every failure ends the operation it occurs in; none is retried.
#[derive(Clone, Copy, Debug, PartialEq, Eq, Structural)]
pub enum BuildError {
    /// The manifest document could not be opened.
    ManifestMissing,
    /// The manifest document is not structured data.
    ManifestMalformed,
    /// The manifest lacks `name` or `version`, or one of them is no string.
    ManifestFieldInvalid,
    /// The destination directory could not be created.
    DestinationUnwritable,
    /// An earlier artifact at the destination could not be removed.
    StaleArtifactRemovalFailed,
    /// The artifact file could not be created.
    ArtifactCreateFailed,
    /// An entry could not be read from the source tree or written to the
    /// archive.
    EntryWriteFailed,
    /// The archive could not be completed.
    ArchiveFinalizeFailed,
    /// The application could not be started after the build.
    LaunchFailed,
}

impl BuildError {
    /// Whether the failure comes before anything was changed on disk: the
    /// manifest failures do, and only they.
    pub open spec fn is_manifest_failure(self) -> bool {
        self == BuildError::ManifestMissing || self == BuildError::ManifestMalformed || self
            == BuildError::ManifestFieldInvalid
    }
}

} // verus!
