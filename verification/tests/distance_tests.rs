use spotify_image_search::distance::artist_set_distance;
use spotify_image_search::distance::string_distance;

fn names(xs: &[&str]) -> Vec<String> {
    xs.iter().map(|s| s.to_string()).collect()
}

#[test]
fn distance_of_string_to_itself_is_zero() {
    assert_eq!(string_distance("Abbey Road", "Abbey Road"), 0);
    assert_eq!(string_distance("", ""), 0);
}

#[test]
fn distance_is_symmetric() {
    assert_eq!(
        string_distance("kitten", "sitting"),
        string_distance("sitting", "kitten")
    );
    assert_eq!(string_distance("kitten", "sitting"), 3);
}

#[test]
fn distance_from_empty_is_length() {
    assert_eq!(string_distance("", "abc"), 3);
    assert_eq!(string_distance("abc", ""), 3);
}

#[test]
fn distance_satisfies_the_triangle_inequality() {
    let (a, b, c) = ("kitten", "sitting", "mittens");
    assert!(string_distance(a, c) <= string_distance(a, b) + string_distance(b, c));
    assert!(string_distance(b, a) <= string_distance(b, c) + string_distance(c, a));
}

#[test]
fn distance_counts_unicode_scalars() {
    assert_eq!(string_distance("caf\u{e9}", "cafe"), 1);
}

#[test]
fn artist_set_identical_lists_are_at_zero() {
    assert_eq!(artist_set_distance(&names(&["A", "B"]), &names(&["A", "B"])), 0);
}

#[test]
fn artist_set_picks_nearest_neighbour_not_average() {
    // "A" is at distance 0 from its nearest neighbour; an average over
    // both candidates would give (0 + 6) / 2 = 3 instead.
    assert_eq!(artist_set_distance(&names(&["A"]), &names(&["A", "Zzzzzz"])), 0);
}

#[test]
fn artist_set_divides_by_longer_list_discarding_remainder() {
    // min distance 2 for the lone name, divided by the longer length 2.
    assert_eq!(artist_set_distance(&names(&["EF"]), &names(&["AB", "CD"])), 1);
    // sum 1 divided by 2 discards the remainder.
    assert_eq!(artist_set_distance(&names(&["X"]), &names(&["XA", "QQQ"])), 0);
}

#[test]
fn artist_set_order_of_arguments_follows_lengths() {
    // The longer list is the pool of neighbours whichever side it is on.
    assert_eq!(artist_set_distance(&names(&["AB", "CD"]), &names(&["EF"])), 1);
}
