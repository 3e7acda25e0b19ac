use rand::seq::SliceRandom;
use vstd::prelude::*;

use crate::model::PaperRecord;

verus! {

/// How many papers are processed in one run.
pub const SAMPLE_LIMIT: usize = 3;

/// The number of papers picked out of `n`: all of them, but at most three.
pub open spec fn sample_count(n: nat) -> nat {
    if n < SAMPLE_LIMIT as nat {
        n
    } else {
        SAMPLE_LIMIT as nat
    }
}

/// `idx` names distinct positions of a sequence of length `n`.
pub open spec fn distinct_positions(idx: Seq<usize>, n: nat) -> bool {
    &&& idx.no_duplicates()
    &&& forall|j: int| 0 <= j < idx.len() ==> #[trigger] idx[j] < n
}

/// `picked` lists the papers at the positions `idx` of `papers`, in that order.
pub open spec fn picked_at(papers: Seq<PaperRecord>, idx: Seq<usize>, picked: Seq<PaperRecord>) -> bool {
    &&& picked.len() == idx.len()
    &&& forall|j: int| 0 <= j < idx.len() ==> #[trigger] picked[j] == papers[idx[j] as int]
}

/// `picked` is a sample of `papers`: papers at distinct positions, as many as
/// `sample_count` asks for.
pub open spec fn is_sample(papers: Seq<PaperRecord>, picked: Seq<PaperRecord>) -> bool {
    &&& picked.len() == sample_count(papers.len())
    &&& exists|idx: Seq<usize>|
        distinct_positions(idx, papers.len()) && #[trigger] picked_at(papers, idx, picked)
}

/// Relies on rand's `SliceRandom::shuffle` with the thread-local generator:
/// it only swaps elements, so what the vector holds stays the same.
#[verifier::external_body]
fn shuffle_indices(v: &mut Vec<usize>)
    ensures
        final(v)@.len() == old(v)@.len(),
        final(v)@.to_multiset() == old(v)@.to_multiset(),
{
    v.shuffle(&mut rand::thread_rng());
}

/// The number of papers to process out of `n`.
pub fn sample_size(n: usize) -> (k: usize)
    ensures
        k as nat == sample_count(n as nat),
{
    if n < SAMPLE_LIMIT {
        n
    } else {
        SAMPLE_LIMIT
    }
}

/// Shuffles the positions `0..n` and keeps the first `sample_size(n)` of them.
pub fn pick_indices(n: usize) -> (r: Vec<usize>)
    ensures
        r@.len() == sample_count(n as nat),
        distinct_positions(r@, n as nat),
{
    let mut v: Vec<usize> = Vec::new();
    let mut i: usize = 0;
    while i < n
        invariant
            i <= n,
            v@.len() == i,
            forall|k: int| 0 <= k < i ==> #[trigger] v@[k] == k,
        decreases n - i,
    {
        v.push(i);
        i = i + 1;
    }
    let ghost before = v@;
    assert(distinct_positions(before, n as nat));
    shuffle_indices(&mut v);
    proof {
        broadcast use vstd::seq_lib::group_to_multiset_ensures;

        before.lemma_multiset_has_no_duplicates();
        v@.lemma_multiset_has_no_duplicates_conv();
        assert forall|j: int| 0 <= j < v@.len() implies #[trigger] v@[j] < n by {
            assert(v@.to_multiset().contains(v@[j]));
            assert(before.contains(v@[j]));
        }
    }
    let k = sample_size(n);
    v.truncate(k);
    proof {
        assert forall|a: int, b: int|
            0 <= a < v@.len() && 0 <= b < v@.len() && a != b implies v@[a] != v@[b] by {
        }
    }
    v
}

/// The papers at the positions `idx`, in the order of `idx`.
pub fn select(papers: &Vec<PaperRecord>, idx: &Vec<usize>) -> (r: Vec<PaperRecord>)
    requires
        forall|j: int| 0 <= j < idx@.len() ==> #[trigger] idx@[j] < papers@.len(),
    ensures
        picked_at(papers@, idx@, r@),
{
    let mut r: Vec<PaperRecord> = Vec::new();
    let mut j: usize = 0;
    while j < idx.len()
        invariant
            j <= idx@.len(),
            forall|t: int| 0 <= t < idx@.len() ==> #[trigger] idx@[t] < papers@.len(),
            r@.len() == j,
            forall|t: int| 0 <= t < j ==> #[trigger] r@[t] == papers@[idx@[t] as int],
        decreases idx@.len() - j,
    {
        r.push(papers[idx[j]].duplicate());
        j = j + 1;
    }
    r
}

/// Picks at random up to three papers at distinct positions.
pub fn sample_papers(papers: &Vec<PaperRecord>) -> (r: Vec<PaperRecord>)
    ensures
        is_sample(papers@, r@),
        papers@.len() == 1 ==> r@ == papers@,
{
    let idx = pick_indices(papers.len());
    let r = select(papers, &idx);
    assert(picked_at(papers@, idx@, r@));
    if papers.len() == 1 {
        assert(idx@[0] == 0);
        assert(r@ =~= papers@);
    }
    r
}

} // verus!
