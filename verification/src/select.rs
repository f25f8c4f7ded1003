//! Candidate disambiguation: rank the search results against the local
//! track and pick the single winner.
//!
//! The winner a stable ascending sort by score followed by a scan for the
//! first exact-album match would produce is characterised here directly:
//! the first exact-album match in stable score order is the match with the
//! lowest score, earliest search-result position on ties, and likewise for
//! the top of the score order. The spec functions below compute those
//! indices; the selector is proved to return exactly that candidate's
//! artwork URL.

use vstd::prelude::*;

use crate::model::Candidate;
use crate::model::FailureKind;
use crate::model::TrackDescriptor;
use crate::score::score;
use crate::score::spec_score;

verus! {

/// The candidates that survive the malformed-entry filter, in their
/// search-result order.
pub open spec fn keep_well_formed(s: Seq<Candidate>) -> Seq<Candidate>
    decreases s.len(),
{
    if s.len() == 0 {
        Seq::empty()
    } else if s.last().well_formed() {
        keep_well_formed(s.drop_last()).push(s.last())
    } else {
        keep_well_formed(s.drop_last())
    }
}

/// Index of the candidate a stable ascending sort by score would put
/// first: lowest score, earliest position on equal scores.
pub open spec fn best_overall(t: TrackDescriptor, f: Seq<Candidate>) -> int
    decreases f.len(),
{
    if f.len() <= 1 {
        0
    } else {
        let p = best_overall(t, f.drop_last());
        if spec_score(t, f.last()) < spec_score(t, f[p]) {
            f.len() - 1
        } else {
            p
        }
    }
}

/// Index of the exact-album match a stable ascending sort by score would
/// reach first — the match with the lowest score, earliest position on
/// equal scores — or -1 when no candidate's album equals the local album
/// exactly (case-sensitive, untrimmed).
pub open spec fn best_album_match(t: TrackDescriptor, f: Seq<Candidate>) -> int
    decreases f.len(),
{
    if f.len() == 0 {
        -1
    } else {
        let p = best_album_match(t, f.drop_last());
        if f.last().album@ != t.album@ {
            p
        } else if p == -1 {
            f.len() - 1
        } else if spec_score(t, f.last()) < spec_score(t, f[p]) {
            f.len() - 1
        } else {
            p
        }
    }
}

/// The winner's index in the filtered sequence. A lone candidate is
/// accepted as it stands, whatever its score. Otherwise an exact album
/// match overrides the pure score order; with no exact match the top of
/// the score order wins.
pub open spec fn winner_idx(t: TrackDescriptor, f: Seq<Candidate>) -> int
    recommends
        f.len() > 0,
{
    if f.len() == 1 {
        0
    } else {
        let m = best_album_match(t, f);
        if m >= 0 {
            m
        } else {
            best_overall(t, f)
        }
    }
}

pub proof fn lemma_best_overall_in_range(t: TrackDescriptor, f: Seq<Candidate>)
    requires
        f.len() > 0,
    ensures
        0 <= best_overall(t, f) < f.len(),
    decreases f.len(),
{
    if f.len() > 1 {
        lemma_best_overall_in_range(t, f.drop_last());
    }
}

pub proof fn lemma_best_album_match_in_range(t: TrackDescriptor, f: Seq<Candidate>)
    ensures
        -1 <= best_album_match(t, f) < f.len(),
        best_album_match(t, f) >= 0 ==> f[best_album_match(t, f)].album@ == t.album@,
    decreases f.len(),
{
    if f.len() > 0 {
        lemma_best_album_match_in_range(t, f.drop_last());
    }
}

/// The scan for an exact album match misses none: if any candidate
/// matches, one is found.
pub proof fn lemma_best_album_match_finds(t: TrackDescriptor, f: Seq<Candidate>, i: int)
    requires
        0 <= i < f.len(),
        f[i].album@ == t.album@,
    ensures
        best_album_match(t, f) >= 0,
    decreases f.len(),
{
    lemma_best_album_match_in_range(t, f.drop_last());
    if i < f.len() - 1 {
        lemma_best_album_match_finds(t, f.drop_last(), i);
    }
}

/// The top of the score order scores no worse than any candidate.
pub proof fn lemma_best_overall_minimal(t: TrackDescriptor, f: Seq<Candidate>)
    requires
        f.len() > 0,
    ensures
        forall|j: int|
            0 <= j < f.len() ==> spec_score(t, f[best_overall(t, f)]) <= #[trigger] spec_score(
                t,
                f[j],
            ),
    decreases f.len(),
{
    if f.len() > 1 {
        lemma_best_overall_minimal(t, f.drop_last());
        lemma_best_overall_in_range(t, f.drop_last());
        assert forall|j: int|
            0 <= j < f.len() implies spec_score(t, f[best_overall(t, f)]) <= #[trigger] spec_score(
            t,
            f[j],
        ) by {
            if j < f.len() - 1 {
                assert(f.drop_last()[j] == f[j]);
            }
        }
    }
}

/// Among the exact album matches, the one the tie-break picks scores no
/// worse than any other exact match.
pub proof fn lemma_best_album_match_minimal(t: TrackDescriptor, f: Seq<Candidate>, j: int)
    requires
        0 <= j < f.len(),
        f[j].album@ == t.album@,
        best_album_match(t, f) >= 0,
    ensures
        spec_score(t, f[best_album_match(t, f)]) <= spec_score(t, f[j]),
    decreases f.len(),
{
    lemma_best_album_match_in_range(t, f.drop_last());
    if j < f.len() - 1 {
        lemma_best_album_match_finds(t, f.drop_last(), j);
        lemma_best_album_match_minimal(t, f.drop_last(), j);
    }
}

/// The album-exact-match tie-break, stated whole: whenever any candidate's
/// album equals the local album exactly, the winner is such a candidate,
/// even where pure score order would put another candidate first.
pub proof fn lemma_album_match_wins(t: TrackDescriptor, f: Seq<Candidate>, i: int)
    requires
        0 <= i < f.len(),
        f[i].album@ == t.album@,
    ensures
        f[winner_idx(t, f)].album@ == t.album@,
{
    lemma_best_album_match_finds(t, f, i);
    lemma_best_album_match_in_range(t, f);
}

/// A lone candidate wins whatever its score: no threshold rejects it.
pub proof fn lemma_single_candidate_wins(t: TrackDescriptor, f: Seq<Candidate>)
    requires
        f.len() == 1,
    ensures
        winner_idx(t, f) == 0,
{
}

/// With no exact album match anywhere, the winner scores no worse than
/// any candidate.
pub proof fn lemma_winner_minimal_without_match(t: TrackDescriptor, f: Seq<Candidate>)
    requires
        f.len() > 0,
        best_album_match(t, f) < 0,
    ensures
        forall|j: int|
            0 <= j < f.len() ==> spec_score(t, f[winner_idx(t, f)]) <= #[trigger] spec_score(
                t,
                f[j],
            ),
{
    lemma_best_overall_minimal(t, f);
}

/// Pick the winner among the raw search results and hand back its primary
/// (position 0) artwork URL. Malformed results are dropped silently
/// first; when none survive the filter the selection fails with
/// `NoCandidates`, and that is the only failure.
pub fn select_artwork_url(t: &TrackDescriptor, candidates: &Vec<Candidate>) -> (r: Result<
    String,
    FailureKind,
>)
    requires
        t.well_formed(),
    ensures
        keep_well_formed(candidates@).len() == 0 ==> r is Err && r->Err_0
            == FailureKind::NoCandidates,
        keep_well_formed(candidates@).len() > 0 ==> r is Ok && r->Ok_0@ == keep_well_formed(
            candidates@,
        )[winner_idx(*t, keep_well_formed(candidates@))].artwork_refs@[0].url@,
{
    let ghost cs = candidates@;
    let n = candidates.len();
    let mut count: usize = 0;
    let mut best_at: usize = 0;
    let mut best_score: u128 = 0;
    let mut match_found = false;
    let mut match_at: usize = 0;
    let mut match_score: u128 = 0;
    let mut i: usize = 0;
    while i < n
        invariant
            n == cs.len(),
            cs == candidates@,
            i <= n,
            t.well_formed(),
            count <= i,
            count == keep_well_formed(cs.take(i as int)).len(),
            count > 0 ==> ({
                let g = keep_well_formed(cs.take(i as int));
                &&& best_at < i
                &&& cs[best_at as int].well_formed()
                &&& g[best_overall(*t, g)] == cs[best_at as int]
                &&& best_score == spec_score(*t, cs[best_at as int])
            }),
            match_found <==> best_album_match(*t, keep_well_formed(cs.take(i as int))) >= 0,
            match_found ==> ({
                let g = keep_well_formed(cs.take(i as int));
                &&& match_at < i
                &&& cs[match_at as int].well_formed()
                &&& cs[match_at as int].album@ == t.album@
                &&& g[best_album_match(*t, g)] == cs[match_at as int]
                &&& match_score == spec_score(*t, cs[match_at as int])
            }),
        decreases n - i,
    {
        let ghost g = keep_well_formed(cs.take(i as int));
        let c = &candidates[i];
        if c.artists.len() > 0 && c.artwork_refs.len() > 0 {
            let s = score(t, c);
            proof {
                assert(cs.take(i + 1).drop_last() =~= cs.take(i as int));
                assert(keep_well_formed(cs.take(i + 1)) =~= g.push(cs[i as int]));
                assert(g.push(cs[i as int]).drop_last() =~= g);
                if count > 0 {
                    lemma_best_overall_in_range(*t, g);
                }
                lemma_best_album_match_in_range(*t, g);
            }
            if count == 0 || s < best_score {
                best_at = i;
                best_score = s;
            }
            let is_match = c.album == t.album;
            if is_match && (!match_found || s < match_score) {
                match_at = i;
                match_score = s;
                match_found = true;
            }
            count = count + 1;
        } else {
            proof {
                assert(cs.take(i + 1).drop_last() =~= cs.take(i as int));
                assert(keep_well_formed(cs.take(i + 1)) =~= g);
            }
        }
        i = i + 1;
    }
    proof {
        assert(cs.take(n as int) =~= cs);
    }
    if count == 0 {
        return Err(FailureKind::NoCandidates);
    }
    let w = if count > 1 && match_found {
        match_at
    } else {
        best_at
    };
    let c = &candidates[w];
    let url = c.artwork_refs[0].url.clone();
    Ok(url)
}

} // verus!
