//! The data the matching core works on, and the failure taxonomy.

use vstd::prelude::*;

verus! {

/// The metadata of one local audio file, read once from its tags and
/// immutable afterwards. Artists keep their source order but are compared
/// as an unordered collection.
pub struct TrackDescriptor {
    pub title: String,
    pub artists: Vec<String>,
    pub album: String,
}

impl TrackDescriptor {
    /// A descriptor always names at least one artist; the tag-reading
    /// collaborator's contract enforces it.
    pub open spec fn well_formed(self) -> bool {
        self.artists@.len() > 0
    }
}

/// One artwork image a search result offers: its URL and the catalog's
/// resolution rank. Position 0 of a candidate's list is the
/// highest-resolution, primary image and is the one ever used.
pub struct ArtworkRef {
    pub url: String,
    pub rank: usize,
}

/// One track returned by the catalog search, immutable.
pub struct Candidate {
    pub title: String,
    pub artists: Vec<String>,
    pub album: String,
    pub artwork_refs: Vec<ArtworkRef>,
}

impl Candidate {
    /// A usable candidate names at least one artist and offers at least
    /// one artwork image. The upstream search is untrusted: results
    /// failing this are malformed and are dropped silently before scoring.
    pub open spec fn well_formed(self) -> bool {
        self.artists@.len() > 0 && self.artwork_refs@.len() > 0
    }
}

/// Tag reading failed: the file's format is unknown or carries no tag.
#[derive(Clone, Copy, Debug, PartialEq, Eq, Structural)]
pub struct InvalidFiletype;

/// Why one file, or the whole run, could not be served.
#[derive(Clone, Copy, Debug, PartialEq, Eq, Structural)]
pub enum FailureKind {
    /// A credential file is absent or unreadable; fatal before any work.
    ConfigMissing,
    /// The token exchange failed; fatal before any work.
    AuthFailure,
    /// A directory was given without the recursive flag.
    NotRecursive,
    /// The audio file's tag format cannot be read.
    InvalidFiletype,
    /// The tag lacks its title, artist or album field.
    MissingMetadataField,
    /// No usable candidate came back from the search.
    NoCandidates,
    /// The search transport failed.
    SearchUnavailable,
    /// The output file already exists and overwriting was not forced.
    OutputExists,
    /// Disk or transport failure while fetching or writing the artwork.
    Io,
}

impl InvalidFiletype {
    /// The failure kind an unreadable tag surfaces as.
    pub fn kind(&self) -> (k: FailureKind)
        ensures
            k == FailureKind::InvalidFiletype,
    {
        FailureKind::InvalidFiletype
    }
}

} // verus!
