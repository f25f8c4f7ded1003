use spotify_image_search::model::ArtworkRef;
use spotify_image_search::model::Candidate;
use spotify_image_search::model::FailureKind;
use spotify_image_search::model::TrackDescriptor;
use spotify_image_search::select::select_artwork_url;

fn names(xs: &[&str]) -> Vec<String> {
    xs.iter().map(|s| s.to_string()).collect()
}

fn track(title: &str, artists: &[&str], album: &str) -> TrackDescriptor {
    TrackDescriptor { title: title.to_string(), artists: names(artists), album: album.to_string() }
}

fn candidate(title: &str, artists: &[&str], album: &str, url: &str) -> Candidate {
    Candidate {
        title: title.to_string(),
        artists: names(artists),
        album: album.to_string(),
        artwork_refs: vec![
            ArtworkRef { url: url.to_string(), rank: 0 },
            ArtworkRef { url: format!("{url}-small"), rank: 1 },
        ],
    }
}

#[test]
fn exact_album_match_beats_lower_score() {
    let local = track("Come Together", &["The Beatles"], "Abbey Road");
    // First candidate scores 7 (album distance only), second scores 11
    // (title distance only) but matches the album exactly: it must win.
    let x = candidate("Come Together", &["The Beatles"], "Abbey Road (Live)", "http://x");
    let y = candidate("Come Together - 2019 Mix", &["The Beatles"], "Abbey Road", "http://y");
    let r = select_artwork_url(&local, &vec![x, y]);
    assert_eq!(r, Ok("http://y".to_string()));
}

#[test]
fn best_score_wins_without_exact_album_match() {
    let local = track("Help!", &["The Beatles"], "Help!");
    let near = candidate("Help!", &["The Beatles"], "Help! (Remastered)", "http://near");
    let far = candidate("Helter Skelter", &["The Beatles"], "The White Album", "http://far");
    let r = select_artwork_url(&local, &vec![far, near]);
    assert_eq!(r, Ok("http://near".to_string()));
}

#[test]
fn equal_scores_keep_search_result_order() {
    let local = track("One", &["U2"], "Z");
    let first = candidate("One", &["U2"], "Q", "http://first");
    let second = candidate("One", &["U2"], "Q", "http://second");
    let r = select_artwork_url(&local, &vec![first, second]);
    assert_eq!(r, Ok("http://first".to_string()));
}

#[test]
fn lone_candidate_wins_whatever_its_score() {
    let local = track("Bohemian Rhapsody", &["Queen"], "A Night at the Opera");
    let lone = candidate("zzzzzzzz", &["qqqq"], "wwww", "http://lone");
    let r = select_artwork_url(&local, &vec![lone]);
    assert_eq!(r, Ok("http://lone".to_string()));
}

#[test]
fn empty_candidate_list_is_no_candidates() {
    let local = track("One", &["U2"], "Achtung Baby");
    let r = select_artwork_url(&local, &Vec::new());
    assert_eq!(r, Err(FailureKind::NoCandidates));
}

#[test]
fn all_malformed_candidates_is_no_candidates() {
    let local = track("One", &["U2"], "Achtung Baby");
    let mut no_artists = candidate("One", &[], "Achtung Baby", "http://bad1");
    no_artists.artists = Vec::new();
    let mut no_artwork = candidate("One", &["U2"], "Achtung Baby", "http://bad2");
    no_artwork.artwork_refs = Vec::new();
    let r = select_artwork_url(&local, &vec![no_artists, no_artwork]);
    assert_eq!(r, Err(FailureKind::NoCandidates));
}

#[test]
fn malformed_candidates_are_dropped_before_the_tie_break() {
    let local = track("One", &["U2"], "Achtung Baby");
    // The exact-album candidate offers no artwork: it is dropped, and the
    // well-formed near miss wins.
    let mut exact_but_bare = candidate("One", &["U2"], "Achtung Baby", "http://bare");
    exact_but_bare.artwork_refs = Vec::new();
    let near = candidate("One", &["U2"], "Achtung Baby (Deluxe)", "http://near");
    let r = select_artwork_url(&local, &vec![exact_but_bare, near]);
    assert_eq!(r, Ok("http://near".to_string()));
}

#[test]
fn winner_primary_artwork_is_position_zero() {
    let local = track("One", &["U2"], "Achtung Baby");
    let c = candidate("One", &["U2"], "Achtung Baby", "http://primary");
    let r = select_artwork_url(&local, &vec![c]);
    assert_eq!(r, Ok("http://primary".to_string()));
}
