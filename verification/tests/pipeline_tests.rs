use spotify_image_search::model::ArtworkRef;
use spotify_image_search::model::Candidate;
use spotify_image_search::model::FailureKind;
use spotify_image_search::model::TrackDescriptor;
use spotify_image_search::pipeline::build_search_url;
use spotify_image_search::pipeline::build_token_request_body;
use spotify_image_search::pipeline::primary_artist;
use spotify_image_search::pipeline::resolve_artwork;
use spotify_image_search::pipeline::SearchResponse;
use spotify_image_search::tags::split_artists;
use spotify_image_search::tags::track_from_tags;

#[test]
fn search_url_encodes_both_fields() {
    let url = build_search_url("Hello World", "AC DC");
    assert_eq!(
        url,
        "https://api.spotify.com/v1/search?q=track%3AHello%20World%20artist%3AAC%20DC&type=track"
    );
}

#[test]
fn search_url_keeps_unreserved_characters() {
    let url = build_search_url("One", "U2");
    assert_eq!(
        url,
        "https://api.spotify.com/v1/search?q=track%3AOne%20artist%3AU2&type=track"
    );
}

#[test]
fn token_request_body_names_both_credentials() {
    let body = build_token_request_body("my-id", "my-secret");
    assert_eq!(
        body,
        "grant_type=client_credentials&client_id=my-id&client_secret=my-secret"
    );
}

#[test]
fn primary_artist_is_the_first_of_the_list() {
    let t = track_from_tags("Under Pressure", "Queen, David Bowie", "Hot Space");
    assert_eq!(primary_artist(&t).as_str(), "Queen");
}

#[test]
fn transport_failure_resolves_to_search_unavailable() {
    let t = track_from_tags("One", "U2", "Achtung Baby");
    let r = resolve_artwork(&t, &SearchResponse::Unavailable);
    assert_eq!(r, Err(FailureKind::SearchUnavailable));
}

#[test]
fn candidates_resolve_to_the_winning_artwork_url() {
    let t = track_from_tags("One", "U2", "Achtung Baby");
    let c = Candidate {
        title: "One".to_string(),
        artists: vec!["U2".to_string()],
        album: "Achtung Baby".to_string(),
        artwork_refs: vec![ArtworkRef { url: "http://one".to_string(), rank: 0 }],
    };
    let r = resolve_artwork(&t, &SearchResponse::Candidates(vec![c]));
    assert_eq!(r, Ok("http://one".to_string()));
}

#[test]
fn empty_response_resolves_to_no_candidates() {
    let t = track_from_tags("One", "U2", "Achtung Baby");
    let r = resolve_artwork(&t, &SearchResponse::Candidates(Vec::new()));
    assert_eq!(r, Err(FailureKind::NoCandidates));
}

#[test]
fn artists_split_on_comma_space() {
    assert_eq!(split_artists("Queen, David Bowie"), vec!["Queen", "David Bowie"]);
    assert_eq!(
        split_artists("A, B, C"),
        vec!["A".to_string(), "B".to_string(), "C".to_string()]
    );
}

#[test]
fn artists_without_separator_stay_one_name() {
    assert_eq!(split_artists("Simon & Garfunkel"), vec!["Simon & Garfunkel"]);
    assert_eq!(split_artists("A,B"), vec!["A,B"]);
}

#[test]
fn artists_split_keeps_trailing_empty_name() {
    assert_eq!(split_artists("A, "), vec!["A".to_string(), "".to_string()]);
    assert_eq!(split_artists(""), vec!["".to_string()]);
}

#[test]
fn descriptor_carries_the_tag_fields() {
    let t: TrackDescriptor = track_from_tags("One", "U2, B.B. King", "Achtung Baby");
    assert_eq!(t.title, "One");
    assert_eq!(t.album, "Achtung Baby");
    assert_eq!(t.artists, vec!["U2", "B.B. King"]);
}
