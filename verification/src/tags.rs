//! Building the local track descriptor from the three tag fields. The
//! tag-reading collaborator hands the artists over as one string; it is
//! split here on the literal separator ", " into the artist list.

use vstd::prelude::*;
use vstd::string::StrSliceExecFns;

use crate::distance::names_view;
use crate::model::TrackDescriptor;

verus! {

/// Position of the first ", " separator in `s`, or -1 when none occurs.
pub open spec fn find_sep(s: Seq<char>) -> int
    decreases s.len(),
{
    if s.len() < 2 {
        -1
    } else if s[0] == ',' && s[1] == ' ' {
        0
    } else {
        let r = find_sep(s.drop_first());
        if r == -1 {
            -1
        } else {
            r + 1
        }
    }
}

pub proof fn lemma_find_sep_range(s: Seq<char>)
    ensures
        find_sep(s) == -1 || (0 <= find_sep(s) && find_sep(s) + 2 <= s.len()),
        find_sep(s) >= 0 ==> s[find_sep(s)] == ',' && s[find_sep(s) + 1] == ' ',
    decreases s.len(),
{
    if s.len() >= 2 && !(s[0] == ',' && s[1] == ' ') {
        lemma_find_sep_range(s.drop_first());
    }
}

/// A separator known at `i`, none earlier: the first one is at `i`.
pub proof fn lemma_find_sep_at(s: Seq<char>, i: int)
    requires
        0 <= i,
        i + 2 <= s.len(),
        s[i] == ',',
        s[i + 1] == ' ',
        forall|k: int| 0 <= k < i ==> !((#[trigger] s[k]) == ',' && s[k + 1] == ' '),
    ensures
        find_sep(s) == i,
    decreases s.len(),
{
    if i > 0 {
        assert forall|k: int| 0 <= k < i - 1 implies !((#[trigger] s.drop_first()[k]) == ','
            && s.drop_first()[k + 1] == ' ') by {
            assert(s.drop_first()[k] == s[k + 1]);
            assert(s.drop_first()[k + 1] == s[k + 2]);
        }
        lemma_find_sep_at(s.drop_first(), i - 1);
    }
}

/// No separator anywhere: none is found.
pub proof fn lemma_find_sep_none(s: Seq<char>)
    requires
        forall|k: int| 0 <= k <= s.len() - 2 ==> !((#[trigger] s[k]) == ',' && s[k + 1] == ' '),
    ensures
        find_sep(s) == -1,
    decreases s.len(),
{
    if s.len() >= 2 {
        assert(!(s[0] == ',' && s[1] == ' '));
        assert forall|k: int| 0 <= k <= s.drop_first().len() - 2 implies !((#[trigger] s.drop_first()[k])
            == ',' && s.drop_first()[k + 1] == ' ') by {
            assert(s.drop_first()[k] == s[k + 1]);
            assert(s.drop_first()[k + 1] == s[k + 2]);
        }
        lemma_find_sep_none(s.drop_first());
    }
}

/// The artist list an artist string denotes: the string split on every
/// occurrence of the literal separator ", ". Splitting never drops a
/// piece: a separator at the very end contributes a final empty name, and
/// a string without separators is one name, so the list is never empty.
pub open spec fn split_artists_spec(s: Seq<char>) -> Seq<Seq<char>>
    decreases s.len(),
    via split_artists_spec_dec
{
    let f = find_sep(s);
    if f == -1 {
        seq![s]
    } else {
        seq![s.take(f)] + split_artists_spec(s.skip(f + 2))
    }
}

#[via_fn]
proof fn split_artists_spec_dec(s: Seq<char>) {
    lemma_find_sep_range(s);
}

/// Split an artist string on the literal separator ", ".
pub fn split_artists(s: &str) -> (r: Vec<String>)
    ensures
        names_view(r@) == split_artists_spec(s@),
        r@.len() > 0,
{
    let len = s.unicode_len();
    let mut out: Vec<String> = Vec::new();
    let mut start: usize = 0;
    let mut i: usize = 0;
    proof {
        assert(s@.skip(0) =~= s@);
        assert(names_view(out@) + split_artists_spec(s@) =~= split_artists_spec(s@));
    }
    while i < len
        invariant
            len == s@.len(),
            start <= i <= len,
            split_artists_spec(s@) == names_view(out@) + split_artists_spec(
                s@.skip(start as int),
            ),
            forall|k: int|
                start <= k < i ==> !(k + 2 <= len && (#[trigger] s@[k]) == ',' && s@[k + 1]
                    == ' '),
        decreases len - i,
    {
        let mut is_sep = false;
        if i + 1 < len {
            let c0 = s.get_char(i);
            let c1 = s.get_char(i + 1);
            is_sep = c0 == ',' && c1 == ' ';
        }
        if is_sep {
            let piece = s.substring_char(start, i).to_owned();
            let ghost old_out = out@;
            out.push(piece);
            proof {
                let rem = s@.skip(start as int);
                let f = i as int - start as int;
                assert forall|k: int| 0 <= k < f implies !((#[trigger] rem[k]) == ',' && rem[k
                    + 1] == ' ') by {
                    assert(rem[k] == s@[k + start]);
                    assert(rem[k + 1] == s@[k + start + 1]);
                }
                assert(rem[f] == s@[i as int]);
                assert(rem[f + 1] == s@[i as int + 1]);
                lemma_find_sep_at(rem, f);
                assert(rem.take(f) =~= s@.subrange(start as int, i as int));
                assert(rem.skip(f + 2) =~= s@.skip(i as int + 2));
                assert(names_view(out@) =~= names_view(old_out) + seq![
                    s@.subrange(start as int, i as int),
                ]);
                assert((names_view(old_out) + seq![s@.subrange(start as int, i as int)])
                    + split_artists_spec(s@.skip(i as int + 2)) =~= names_view(old_out) + (seq![
                    s@.subrange(start as int, i as int),
                ] + split_artists_spec(s@.skip(i as int + 2))));
            }
            start = i + 2;
            i = i + 2;
        } else {
            i = i + 1;
        }
    }
    let piece = s.substring_char(start, len).to_owned();
    let ghost old_out = out@;
    out.push(piece);
    proof {
        let rem = s@.skip(start as int);
        assert forall|k: int| 0 <= k <= rem.len() - 2 implies !((#[trigger] rem[k]) == ','
            && rem[k + 1] == ' ') by {
            assert(rem[k] == s@[k + start]);
            assert(rem[k + 1] == s@[k + start + 1]);
        }
        lemma_find_sep_none(rem);
        assert(rem =~= s@.subrange(start as int, len as int));
        assert(names_view(out@) =~= names_view(old_out) + seq![rem]);
    }
    out
}

/// Build the local descriptor from the three tag fields. The artist
/// string is split on ", ", so the descriptor always names at least one
/// artist.
pub fn track_from_tags(title: &str, artist_string: &str, album: &str) -> (t: TrackDescriptor)
    ensures
        t.title@ == title@,
        t.album@ == album@,
        names_view(t.artists@) == split_artists_spec(artist_string@),
        t.well_formed(),
{
    TrackDescriptor {
        title: title.to_owned(),
        artists: split_artists(artist_string),
        album: album.to_owned(),
    }
}

} // verus!
