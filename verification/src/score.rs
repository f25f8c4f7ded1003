//! Scoring one candidate against the local track's metadata.

use vstd::prelude::*;

use crate::distance::artist_set_dist;
use crate::distance::artist_set_distance;
use crate::distance::edit_dist;
use crate::distance::names_view;
use crate::distance::string_distance;
use crate::model::Candidate;
use crate::model::TrackDescriptor;

verus! {

/// A candidate's dissimilarity from the local track: title distance plus
/// artist-set distance plus album distance. Lower is better.
pub open spec fn spec_score(t: TrackDescriptor, c: Candidate) -> nat {
    edit_dist(t.title@, c.title@) + artist_set_dist(names_view(t.artists@), names_view(c.artists@))
        + edit_dist(t.album@, c.album@)
}

/// Score a candidate. The three distances are summed without any
/// normalisation by string length — exact and near-exact metadata matches
/// are favoured regardless of how long the names are, by design.
pub fn score(t: &TrackDescriptor, c: &Candidate) -> (r: u128)
    requires
        t.well_formed(),
        c.well_formed(),
    ensures
        r == spec_score(*t, *c),
{
    let title_d = string_distance(t.title.as_str(), c.title.as_str());
    let artist_d = artist_set_distance(&t.artists, &c.artists);
    let album_d = string_distance(t.album.as_str(), c.album.as_str());
    title_d as u128 + artist_d as u128 + album_d as u128
}

} // verus!
