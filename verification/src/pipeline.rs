//! One track's match, end to end: the outbound query strings and the
//! resolution of the search collaborator's answer to an artwork URL.

use vstd::prelude::*;
use vstd::string::StringExecFns;

use crate::model::Candidate;
use crate::model::FailureKind;
use crate::model::TrackDescriptor;
use crate::select::keep_well_formed;
use crate::select::select_artwork_url;
use crate::select::winner_idx;

verus! {

/// What the search collaborator handed back for one query.
pub enum SearchResponse {
    /// The transport returned and the response parsed into a candidate
    /// list — possibly empty, possibly holding malformed entries.
    Candidates(Vec<Candidate>),
    /// The transport failed before any candidate list came back.
    Unavailable,
}

/// What `urlencoding::encode` returns for a string: its percent-encoded
/// form, a function of the characters alone.
pub uninterp spec fn url_encoded(s: Seq<char>) -> Seq<char>;

/// Relies on `urlencoding::encode`: percent-encodes every byte of the
/// string's UTF-8 form except ASCII alphanumerics and `-`, `_`, `.` and
/// `~`; the result depends on the input string alone.
#[verifier::external_body]
fn encode_component(s: &str) -> (r: String)
    ensures
        r@ == url_encoded(s@),
{
    urlencoding::encode(s).into_owned()
}

/// The catalog search URL for one query: the track and artist fields,
/// query-encoded, spliced into the fixed search endpoint. The artist
/// named here is the single primary artist the catalog API accepts per
/// query.
pub fn build_search_url(track: &str, artist: &str) -> (r: String)
    ensures
        r@ == "https://api.spotify.com/v1/search?q=track%3A"@ + url_encoded(track@)
            + "%20artist%3A"@ + url_encoded(artist@) + "&type=track"@,
{
    let mut url = "https://api.spotify.com/v1/search?q=track%3A".to_owned();
    let enc_track = encode_component(track);
    url.append(enc_track.as_str());
    url.append("%20artist%3A");
    let enc_artist = encode_component(artist);
    url.append(enc_artist.as_str());
    url.append("&type=track");
    url
}

/// The body of the client-credentials token exchange: the grant type and
/// the two credentials, in the fixed field order the token endpoint
/// expects.
pub fn build_token_request_body(client_id: &str, client_secret: &str) -> (r: String)
    ensures
        r@ == "grant_type=client_credentials&client_id="@ + client_id@ + "&client_secret="@
            + client_secret@,
{
    let mut body = "grant_type=client_credentials&client_id=".to_owned();
    body.append(client_id);
    body.append("&client_secret=");
    body.append(client_secret);
    body
}

/// The artist the outbound query names. The catalog API takes a single
/// artist per query, so only the first artist informs the search — a
/// documented limitation of the query, not of the scoring, which still
/// sees every artist.
pub fn primary_artist(t: &TrackDescriptor) -> (r: &String)
    requires
        t.well_formed(),
    ensures
        r@ == t.artists@[0]@,
{
    &t.artists[0]
}

/// Resolve one local track to its artwork URL from what the search
/// collaborator handed back. A transport failure propagates as
/// `SearchUnavailable`; otherwise the selector decides over the full
/// local descriptor, and its `NoCandidates` failure propagates unchanged.
pub fn resolve_artwork(t: &TrackDescriptor, response: &SearchResponse) -> (r: Result<
    String,
    FailureKind,
>)
    requires
        t.well_formed(),
    ensures
        response is Unavailable ==> r is Err && r->Err_0 == FailureKind::SearchUnavailable,
        response matches SearchResponse::Candidates(cs) ==> ({
            &&& keep_well_formed(cs@).len() == 0 ==> r is Err && r->Err_0
                == FailureKind::NoCandidates
            &&& keep_well_formed(cs@).len() > 0 ==> r is Ok && r->Ok_0@ == keep_well_formed(
                cs@,
            )[winner_idx(*t, keep_well_formed(cs@))].artwork_refs@[0].url@
        }),
{
    match response {
        SearchResponse::Unavailable => Err(FailureKind::SearchUnavailable),
        SearchResponse::Candidates(cs) => select_artwork_url(t, cs),
    }
}

} // verus!
