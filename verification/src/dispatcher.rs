//! Result correlation for a dispatch round.
//!
//! Assembled tool calls are dispatched as independent concurrent units
//! of work, so their results come back in completion order, which is
//! arbitrary.  Before the turn can proceed, every dispatched call must
//! have resolved — the barrier — and the results must be re-sorted into
//! the original request order, matched by correlation id.  This module
//! owns that re-sorting: gather, don't race.

use vstd::prelude::*;

use crate::messages::LooperToHandlerToolCallResult;

verus! {

/// The character sequences of a list of correlation ids.
pub open spec fn id_views(ids: Seq<String>) -> Seq<Seq<char>> {
    ids.map(|i: int, s: String| s@)
}

/// No two dispatched requests share a correlation id.
pub open spec fn distinct_ids(ids: Seq<Seq<char>>) -> bool {
    forall|i: int, j: int| 0 <= i < j < ids.len() ==> ids[i] != ids[j]
}

/// The first result, in completion order, carrying the given id.
pub open spec fn first_match(
    comps: Seq<LooperToHandlerToolCallResult>,
    id: Seq<char>,
) -> Option<LooperToHandlerToolCallResult>
    decreases comps.len(),
{
    if comps.len() == 0 {
        Option::None
    } else if comps.first().id@ == id {
        Option::Some(comps.first())
    } else {
        first_match(comps.drop_first(), id)
    }
}

/// Every request id found a result, and the counts agree.
pub open spec fn correlation_ok(
    ids: Seq<Seq<char>>,
    comps: Seq<LooperToHandlerToolCallResult>,
) -> bool {
    &&& comps.len() == ids.len()
    &&& forall|i: int| 0 <= i < ids.len() ==> first_match(comps, #[trigger] ids[i]) is Some
}

/// The results re-sorted into request order: position `i` holds the
/// first result whose id matches request id `i`.
pub open spec fn correlated(ids: Seq<Seq<char>>, comps: Seq<LooperToHandlerToolCallResult>) -> Seq<
    LooperToHandlerToolCallResult,
> {
    Seq::new(ids.len(), |i: int| first_match(comps, ids[i])->Some_0)
}

/// A broken correlation contract.  This is the programming-error
/// class: it is reported loudly, never silently swallowed.
#[derive(Debug, Clone, Copy, PartialEq, Eq, Structural)]
pub enum CorrelationError {
    /// Two dispatched requests share a correlation id.
    DuplicateRequestId,
    /// Some request got no result, or a result matches no request.
    UnmatchedResults,
}

/// A result is a first match exactly when some result carries the id.
proof fn lemma_first_match_exists(comps: Seq<LooperToHandlerToolCallResult>, id: Seq<char>)
    ensures
        (first_match(comps, id) is Some) <==> exists|j: int|
            0 <= j < comps.len() && (#[trigger] comps[j].id@) == id,
        first_match(comps, id) is Some ==> first_match(comps, id)->Some_0.id@ == id,
        first_match(comps, id) is Some ==> comps.contains(first_match(comps, id)->Some_0),
    decreases comps.len(),
{
    if comps.len() == 0 {
    } else if comps.first().id@ == id {
        assert(comps[0].id@ == id);
    } else {
        lemma_first_match_exists(comps.drop_first(), id);
        if exists|j: int| 0 <= j < comps.len() && (#[trigger] comps[j].id@) == id {
            let j = choose|j: int| 0 <= j < comps.len() && (#[trigger] comps[j].id@) == id;
            assert(j != 0);
            assert(comps.drop_first()[j - 1].id@ == id);
        }
        if first_match(comps, id) is Some {
            let r = first_match(comps, id)->Some_0;
            let j = choose|j: int|
                0 <= j < comps.drop_first().len() && (#[trigger] comps.drop_first()[j]) == r;
            assert(comps[j + 1] == r);
            assert(comps.contains(r));
        }
    }
}

fn str_vec_contains_range(ids: &Vec<String>, upto: usize, id: &String) -> (r: bool)
    requires
        upto <= ids@.len(),
    ensures
        r == exists|i: int| 0 <= i < upto && id_views(ids@)[i] == id@,
{
    let mut i: usize = 0;
    while i < upto
        invariant
            upto <= ids@.len(),
            i <= upto,
            forall|k: int| 0 <= k < i ==> id_views(ids@)[k] != id@,
        decreases upto - i,
    {
        if ids[i] == *id {
            assert(id_views(ids@)[i as int] == id@);
            return true;
        }
        i += 1;
    }
    false
}

/// Whether the dispatched requests carry pairwise distinct ids.
pub fn check_distinct_ids(ids: &Vec<String>) -> (r: bool)
    ensures
        r == distinct_ids(id_views(ids@)),
{
    let mut i: usize = 0;
    while i < ids.len()
        invariant
            i <= ids@.len(),
            forall|p: int, q: int| 0 <= p < q < i ==> id_views(ids@)[p] != id_views(ids@)[q],
        decreases ids@.len() - i,
    {
        if str_vec_contains_range(ids, i, &ids[i]) {
            proof {
                assert(id_views(ids@)[i as int] == ids@[i as int]@);
                let p = choose|p: int| 0 <= p < i && id_views(ids@)[p] == ids@[i as int]@;
                assert(!distinct_ids(id_views(ids@)));
            }
            return false;
        }
        i += 1;
    }
    true
}

fn find_first_match(
    completions: &Vec<LooperToHandlerToolCallResult>,
    id: &String,
) -> (r: Option<LooperToHandlerToolCallResult>)
    ensures
        r is Some <==> first_match(completions@, id@) is Some,
        r is Some ==> r->0 == first_match(completions@, id@)->Some_0,
{
    let mut j: usize = 0;
    proof {
        assert(completions@.skip(0) =~= completions@);
    }
    while j < completions.len()
        invariant
            j <= completions@.len(),
            first_match(completions@, id@) == first_match(completions@.skip(j as int), id@),
            forall|k: int| 0 <= k < j ==> (#[trigger] completions@[k].id@) != id@,
        decreases completions@.len() - j,
    {
        let ghost pre = completions@.skip(j as int);
        if completions[j].id == *id {
            proof {
                assert(pre.first() == completions@[j as int]);
            }
            return Option::Some(completions[j].duplicate());
        }
        proof {
            assert(pre.first() == completions@[j as int]);
            assert(pre.drop_first() =~= completions@.skip(j + 1));
        }
        j += 1;
    }
    proof {
        assert(completions@.skip(completions@.len() as int) =~= Seq::<
            LooperToHandlerToolCallResult,
        >::empty());
    }
    Option::None
}

/// Re-sorts a batch of completed results into the original request
/// order, matched by correlation id.  Succeeds exactly when the ids
/// are pairwise distinct, every id got a result, and no result is left
/// over; then position `i` of the output answers request `i`.
pub fn correlate_results(
    ids: &Vec<String>,
    completions: &Vec<LooperToHandlerToolCallResult>,
) -> (r: Result<Vec<LooperToHandlerToolCallResult>, CorrelationError>)
    ensures
        match r {
            Result::Ok(out) => {
                &&& distinct_ids(id_views(ids@))
                &&& correlation_ok(id_views(ids@), completions@)
                &&& out@ == correlated(id_views(ids@), completions@)
            },
            Result::Err(e) => match e {
                CorrelationError::DuplicateRequestId => !distinct_ids(id_views(ids@)),
                CorrelationError::UnmatchedResults => distinct_ids(id_views(ids@))
                    && !correlation_ok(id_views(ids@), completions@),
            },
        },
{
    if !check_distinct_ids(ids) {
        return Result::Err(CorrelationError::DuplicateRequestId);
    }
    if completions.len() != ids.len() {
        return Result::Err(CorrelationError::UnmatchedResults);
    }
    let mut out: Vec<LooperToHandlerToolCallResult> = Vec::new();
    let mut i: usize = 0;
    while i < ids.len()
        invariant
            distinct_ids(id_views(ids@)),
            completions@.len() == ids@.len(),
            i <= ids@.len(),
            forall|k: int| 0 <= k < i ==> first_match(completions@, #[trigger] id_views(ids@)[k])
                is Some,
            out@ =~= correlated(id_views(ids@), completions@).take(i as int),
        decreases ids@.len() - i,
    {
        match find_first_match(completions, &ids[i]) {
            Option::Some(found) => {
                out.push(found);
                proof {
                    assert(out@ =~= correlated(id_views(ids@), completions@).take(i + 1));
                }
            },
            Option::None => {
                proof {
                    assert(id_views(ids@)[i as int] == ids@[i as int]@);
                    assert(!correlation_ok(id_views(ids@), completions@));
                }
                return Result::Err(CorrelationError::UnmatchedResults);
            },
        }
        i += 1;
    }
    proof {
        assert(out@ =~= correlated(id_views(ids@), completions@));
    }
    Result::Ok(out)
}

/// For all batches of N calls dispatched concurrently: whenever the
/// request ids are pairwise distinct and the N results come back in
/// any completion order whatsoever, correlation succeeds, its output
/// has length N, and position `i` answers request `i` — the input
/// order, not the completion order, decides.
pub proof fn lemma_correlation_preserves_request_order(
    ids: Seq<Seq<char>>,
    comps: Seq<LooperToHandlerToolCallResult>,
)
    requires
        distinct_ids(ids),
        comps.len() == ids.len(),
        forall|i: int| #![trigger ids[i]] 0 <= i < ids.len() ==> exists|j: int|
            0 <= j < comps.len() && (#[trigger] comps[j].id@) == ids[i],
    ensures
        correlation_ok(ids, comps),
        correlated(ids, comps).len() == ids.len(),
        forall|i: int| 0 <= i < ids.len() ==> (#[trigger] correlated(ids, comps)[i]).id@ == ids[i],
        forall|i: int| 0 <= i < ids.len() ==> comps.contains(#[trigger] correlated(ids, comps)[i]),
{
    assert forall|i: int| 0 <= i < ids.len() implies first_match(comps, #[trigger] ids[i])
        is Some by {
        lemma_first_match_exists(comps, ids[i]);
    }
    assert forall|i: int| 0 <= i < ids.len() implies (#[trigger] correlated(ids, comps)[i]).id@
        == ids[i] by {
        lemma_first_match_exists(comps, ids[i]);
    }
    assert forall|i: int| 0 <= i < ids.len() implies comps.contains(
        #[trigger] correlated(ids, comps)[i],
    ) by {
        lemma_first_match_exists(comps, ids[i]);
        assert(correlated(ids, comps)[i] == first_match(comps, ids[i])->Some_0);
    }
}

} // verus!
