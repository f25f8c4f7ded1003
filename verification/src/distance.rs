//! String dissimilarity: the Levenshtein edit distance.

use vstd::prelude::*;

verus! {

/// The smaller of two naturals.
pub open spec fn min_nat(x: nat, y: nat) -> nat {
    if x <= y {
        x
    } else {
        y
    }
}

/// Levenshtein edit distance between two character sequences: the least
/// number of single-character insertions, deletions and substitutions that
/// turn one into the other, written as the classic recurrence.
pub open spec fn edit_dist(a: Seq<char>, b: Seq<char>) -> nat
    decreases a.len() + b.len(),
{
    if a.len() == 0 {
        b.len()
    } else if b.len() == 0 {
        a.len()
    } else {
        let keep = edit_dist(a.drop_first(), b.drop_first());
        if a.first() == b.first() {
            keep
        } else {
            let del = edit_dist(a.drop_first(), b);
            let ins = edit_dist(a, b.drop_first());
            1 + min_nat(del, min_nat(ins, keep))
        }
    }
}

/// Relies on `edit_distance::edit_distance`: the Levenshtein distance
/// between the two strings' character sequences, computed by the usual
/// dynamic program over single-character inserts, deletes and substitutions.
#[verifier::external_body]
fn levenshtein(a: &str, b: &str) -> (r: usize)
    ensures
        r == edit_dist(a@, b@),
{
    edit_distance::edit_distance(a, b)
}

/// Edit distance between two strings. Total: any two strings, empty ones
/// included, give a finite non-negative distance.
pub fn string_distance(a: &str, b: &str) -> (r: usize)
    ensures
        r == edit_dist(a@, b@),
{
    levenshtein(a, b)
}

/// View of a list of names as a sequence of character sequences.
pub open spec fn names_view(v: Seq<String>) -> Seq<Seq<char>> {
    v.map_values(|s: String| s@)
}

/// Least edit distance from `name` to any entry of `others`.
pub open spec fn min_dist_to(name: Seq<char>, others: Seq<Seq<char>>) -> nat
    recommends
        others.len() > 0,
    decreases others.len(),
{
    if others.len() <= 1 {
        edit_dist(name, others[0])
    } else {
        min_nat(min_dist_to(name, others.drop_last()), edit_dist(name, others.last()))
    }
}

/// Sum over `small` of each name's least distance to any name of `large`.
pub open spec fn nearest_sum(small: Seq<Seq<char>>, large: Seq<Seq<char>>) -> nat
    decreases small.len(),
{
    if small.len() == 0 {
        0
    } else {
        nearest_sum(small.drop_last(), large) + min_dist_to(small.last(), large)
    }
}

/// One-sided nearest-neighbour average between two artist name lists: for
/// every name of the shorter list, the least edit distance to any name of
/// the longer list; those minima summed and divided (integer division,
/// remainder discarded) by the longer list's length. On equal lengths the
/// second list plays the longer part.
pub open spec fn artist_set_dist(a: Seq<Seq<char>>, b: Seq<Seq<char>>) -> nat
    recommends
        a.len() > 0 && b.len() > 0,
{
    let large = if a.len() > b.len() {
        a
    } else {
        b
    };
    let small = if a.len() > b.len() {
        b
    } else {
        a
    };
    nearest_sum(small, large) / large.len()
}

/// Aggregate dissimilarity between two artist name lists, as
/// `artist_set_dist` states it. Tolerant of one side naming extra or
/// missing collaborators: each name of the shorter list is matched to its
/// nearest neighbour, never to an average over all names.
pub fn artist_set_distance(a: &Vec<String>, b: &Vec<String>) -> (r: usize)
    requires
        a@.len() > 0,
        b@.len() > 0,
    ensures
        r == artist_set_dist(names_view(a@), names_view(b@)),
{
    let (large, small) = if a.len() > b.len() {
        (a, b)
    } else {
        (b, a)
    };
    let ghost ls = names_view(large@);
    let ghost ss = names_view(small@);
    let nl = large.len();
    let ns = small.len();
    let mut total: u128 = 0;
    let mut i: usize = 0;
    while i < ns
        invariant
            nl == ls.len(),
            ns == ss.len(),
            nl == large@.len(),
            ns == small@.len(),
            0 < nl,
            0 < ns <= nl,
            i <= ns,
            total == nearest_sum(ss.take(i as int), ls),
            total <= (i as u128) * (usize::MAX as u128),
            forall|k: int| 0 <= k < ns ==> ss[k] == small@[k]@,
            forall|k: int| 0 <= k < nl ==> ls[k] == large@[k]@,
        decreases ns - i,
    {
        let mut best: usize = string_distance(small[i].as_str(), large[0].as_str());
        let mut j: usize = 1;
        while j < nl
            invariant
                nl == ls.len(),
                ns == ss.len(),
                nl == large@.len(),
                ns == small@.len(),
                i < ns,
                1 <= j <= nl,
                best == min_dist_to(ss[i as int], ls.take(j as int)),
                forall|k: int| 0 <= k < ns ==> ss[k] == small@[k]@,
                forall|k: int| 0 <= k < nl ==> ls[k] == large@[k]@,
            decreases nl - j,
        {
            let d = string_distance(small[i].as_str(), large[j].as_str());
            if d < best {
                best = d;
            }
            j = j + 1;
            proof {
                assert(ls.take(j as int).drop_last() =~= ls.take(j - 1));
            }
        }
        proof {
            assert(ls.take(nl as int) =~= ls);
            assert(total + (best as u128) <= ((i + 1) as u128) * (usize::MAX as u128))
                by (nonlinear_arith)
                requires
                    total <= (i as u128) * (usize::MAX as u128),
                    (best as u128) <= (usize::MAX as u128),
            ;
            assert(((i + 1) as u128) * (usize::MAX as u128) < u128::MAX) by (nonlinear_arith)
                requires
                    ((i + 1) as u128) <= (usize::MAX as u128),
                    (usize::MAX as u128) < 0x1_0000_0000_0000_0000u128,
            ;
        }
        total = total + best as u128;
        i = i + 1;
        proof {
            assert(ss.take(i as int).drop_last() =~= ss.take(i - 1));
        }
    }
    proof {
        assert(ss.take(ns as int) =~= ss);
        vstd::arithmetic::mul::lemma_mul_inequality(ns as int, nl as int, usize::MAX as int);
        vstd::arithmetic::div_mod::lemma_div_is_ordered(
            total as int,
            (nl as int) * (usize::MAX as int),
            nl as int,
        );
        vstd::arithmetic::div_mod::lemma_div_multiples_vanish(usize::MAX as int, nl as int);
    }
    let r = total / (nl as u128);
    r as usize
}

/// A string is at distance zero from itself.
pub proof fn lemma_edit_dist_self(s: Seq<char>)
    ensures
        edit_dist(s, s) == 0,
    decreases s.len(),
{
    if s.len() > 0 {
        lemma_edit_dist_self(s.drop_first());
    }
}

/// The distance is symmetric in its two arguments.
pub proof fn lemma_edit_dist_symmetric(a: Seq<char>, b: Seq<char>)
    ensures
        edit_dist(a, b) == edit_dist(b, a),
    decreases a.len() + b.len(),
{
    if a.len() > 0 && b.len() > 0 {
        lemma_edit_dist_symmetric(a.drop_first(), b.drop_first());
        lemma_edit_dist_symmetric(a.drop_first(), b);
        lemma_edit_dist_symmetric(a, b.drop_first());
    }
}

/// Against the empty string the distance is the other string's length.
pub proof fn lemma_edit_dist_empty(s: Seq<char>)
    ensures
        edit_dist(Seq::<char>::empty(), s) == s.len(),
{
}

/// The distance never exceeds the two lengths together.
pub proof fn lemma_edit_dist_le_sum(a: Seq<char>, b: Seq<char>)
    ensures
        edit_dist(a, b) <= a.len() + b.len(),
    decreases a.len() + b.len(),
{
    if a.len() > 0 && b.len() > 0 {
        lemma_edit_dist_le_sum(a.drop_first(), b.drop_first());
    }
}

/// The distance is at least the difference of the two lengths.
pub proof fn lemma_edit_dist_ge_len_diff(a: Seq<char>, b: Seq<char>)
    ensures
        edit_dist(a, b) + a.len() >= b.len(),
        edit_dist(a, b) + b.len() >= a.len(),
    decreases a.len() + b.len(),
{
    if a.len() > 0 && b.len() > 0 {
        lemma_edit_dist_ge_len_diff(a.drop_first(), b.drop_first());
        lemma_edit_dist_ge_len_diff(a.drop_first(), b);
        lemma_edit_dist_ge_len_diff(a, b.drop_first());
    }
}

/// Dropping a string's first character moves the distance by at most one
/// in either direction.
pub proof fn lemma_edit_dist_drop_first_bound(a: Seq<char>, b: Seq<char>)
    requires
        a.len() > 0,
    ensures
        edit_dist(a, b) <= 1 + edit_dist(a.drop_first(), b),
        edit_dist(a.drop_first(), b) <= 1 + edit_dist(a, b),
    decreases a.len() + b.len(),
{
    let a1 = a.drop_first();
    if b.len() > 0 {
        let b1 = b.drop_first();
        lemma_edit_dist_drop_first_bound(b, a1);
        lemma_edit_dist_drop_first_bound(a, b1);
        lemma_edit_dist_symmetric(b, a1);
        lemma_edit_dist_symmetric(b1, a1);
    }
}

/// The distance is a metric: the triangle inequality holds.
pub proof fn lemma_edit_dist_triangle(a: Seq<char>, b: Seq<char>, c: Seq<char>)
    ensures
        edit_dist(a, c) <= edit_dist(a, b) + edit_dist(b, c),
    decreases a.len() + b.len() + c.len(),
{
    if b.len() == 0 {
        lemma_edit_dist_le_sum(a, c);
    } else if a.len() == 0 {
        lemma_edit_dist_ge_len_diff(b, c);
    } else if c.len() == 0 {
        lemma_edit_dist_ge_len_diff(a, b);
    } else {
        let a1 = a.drop_first();
        let b1 = b.drop_first();
        let c1 = c.drop_first();
        lemma_edit_dist_triangle(a1, b1, c1);
        lemma_edit_dist_triangle(a, b1, c);
        lemma_edit_dist_triangle(a, b, c1);
        lemma_edit_dist_triangle(a, b1, c1);
        lemma_edit_dist_triangle(a1, b, c);
        lemma_edit_dist_drop_first_bound(a, c);
        lemma_edit_dist_drop_first_bound(b, c);
        lemma_edit_dist_drop_first_bound(c, a);
        lemma_edit_dist_drop_first_bound(b, a);
        lemma_edit_dist_symmetric(c, a);
        lemma_edit_dist_symmetric(c1, a);
        lemma_edit_dist_symmetric(b, a);
        lemma_edit_dist_symmetric(b1, a);
    }
}

} // verus!
