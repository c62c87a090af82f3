//! What an adapted body looks like over a whole run of polls.

use crate::body::carried;
use std::task::Poll;
use vstd::prelude::*;

verus! {

/// The chunks among the answers of a body, in the order of the answers.
pub open spec fn chunks<D, E>(polls: Seq<Poll<Option<Result<D, E>>>>) -> Seq<D>
    decreases polls.len(),
{
    if polls.len() == 0 {
        Seq::empty()
    } else {
        match polls.last() {
            Poll::Ready(Some(Ok(chunk))) => chunks(polls.drop_last()).push(chunk),
            _ => chunks(polls.drop_last()),
        }
    }
}

/// The answer says that the body has ended.
pub open spec fn is_end<D, E>(polled: Poll<Option<Result<D, E>>>) -> bool {
    polled matches Poll::Ready(None)
}

/// `outs` are the answers of an adapter to the answers `polls` of the body
/// that it wraps, poll by poll.
pub open spec fn carried_all<D, E, T, X>(
    polls: Seq<Poll<Option<Result<D, E>>>>,
    outs: Seq<Poll<Option<Result<T, X>>>>,
    chunk_ok: spec_fn(D, T) -> bool,
    error_ok: spec_fn(E, X) -> bool,
) -> bool {
    &&& outs.len() == polls.len()
    &&& forall|i: int| 0 <= i < polls.len() ==> carried(#[trigger] polls[i], outs[i], chunk_ok, error_ok)
}

/// The connection model sees the chunks of the body one for one and in
/// order: none is dropped, none is split, no two are merged, and the body
/// is reported as ended at the very polls at which it ended.
pub proof fn lemma_chunks_in_order<D, E, T, X>(
    polls: Seq<Poll<Option<Result<D, E>>>>,
    outs: Seq<Poll<Option<Result<T, X>>>>,
    chunk_ok: spec_fn(D, T) -> bool,
    error_ok: spec_fn(E, X) -> bool,
)
    requires
        carried_all(polls, outs, chunk_ok, error_ok),
    ensures
        chunks(outs).len() == chunks(polls).len(),
        forall|k: int| 0 <= k < chunks(polls).len() ==> chunk_ok(#[trigger] chunks(polls)[k], chunks(outs)[k]),
        forall|i: int| 0 <= i < polls.len() ==> (is_end(#[trigger] outs[i]) <==> is_end(polls[i])),
    decreases polls.len(),
{
    if polls.len() > 0 {
        let last = polls.len() - 1;
        assert(carried(polls[last], outs[last], chunk_ok, error_ok));
        assert forall|i: int| 0 <= i < last implies carried(
            #[trigger] polls.drop_last()[i],
            outs.drop_last()[i],
            chunk_ok,
            error_ok,
        ) by {
            assert(carried(polls[i], outs[i], chunk_ok, error_ok));
        }
        lemma_chunks_in_order(polls.drop_last(), outs.drop_last(), chunk_ok, error_ok);
    }
    assert forall|i: int| 0 <= i < polls.len() implies (is_end(#[trigger] outs[i]) <==> is_end(polls[i])) by {
        assert(carried(polls[i], outs[i], chunk_ok, error_ok));
    }
}

/// What the connection model has seen after `n` polls is fixed by the first
/// `n` answers of the body: it has then seen every chunk that the body has
/// given, and no answer beyond the `n`th bears on it.
pub proof fn lemma_nothing_held_back<D, E, T, X>(
    polls: Seq<Poll<Option<Result<D, E>>>>,
    outs: Seq<Poll<Option<Result<T, X>>>>,
    chunk_ok: spec_fn(D, T) -> bool,
    error_ok: spec_fn(E, X) -> bool,
    n: int,
)
    requires
        carried_all(polls, outs, chunk_ok, error_ok),
        0 <= n <= polls.len(),
    ensures
        carried_all(polls.take(n), outs.take(n), chunk_ok, error_ok),
        chunks(outs.take(n)).len() == chunks(polls.take(n)).len(),
{
    assert forall|i: int| 0 <= i < n implies carried(
        #[trigger] polls.take(n)[i],
        outs.take(n)[i],
        chunk_ok,
        error_ok,
    ) by {
        assert(carried(polls[i], outs[i], chunk_ok, error_ok));
    }
    lemma_chunks_in_order(polls.take(n), outs.take(n), chunk_ok, error_ok);
}

} // verus!
