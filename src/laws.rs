//! What holds of every run of a node: a sequence of requests handled one
//! after another, as the node's lock orders even concurrent ones.
use vstd::prelude::*;
use crate::node::{correlated, step, Action, Identifier, Reply, ReplyBody, Strategy};
use crate::request::{kind_of, Inbound, RequestKind};

verus! {

/// `issued[i]` is what the node had issued before its `i`-th request, and
/// each request `reqs[i]` led to `acts[i]` by one step.
pub open spec fn is_run(
    strategy: Strategy,
    issued: Seq<Set<u64>>,
    reqs: Seq<Inbound>,
    acts: Seq<Action>,
) -> bool {
    &&& issued.len() == reqs.len() + 1
    &&& acts.len() == reqs.len()
    &&& forall|i: int|
        0 <= i < reqs.len() ==> step(strategy, issued[i], reqs[i], issued[i + 1], #[trigger] acts[i])
}

/// `act` sends a `generate_ok` reply with the number `id`.
pub open spec fn sends_number(act: Action, id: u64) -> bool {
    match act {
        Action::Send(reply) => reply.body == ReplyBody::GenerateOk(Identifier::Number(id)),
        _ => false,
    }
}

/// No two requests of `reqs` carry the same correlation token.
pub open spec fn distinct_tokens(reqs: Seq<Inbound>) -> bool {
    forall|i: int, j: int|
        0 <= i < reqs.len() && 0 <= j < reqs.len() && i != j ==> !(#[trigger] reqs[i].src
            == #[trigger] reqs[j].src && reqs[i].msg_id == reqs[j].msg_id)
}

/// The set of issued numbers never shrinks along a run.
pub proof fn lemma_issued_grows(
    strategy: Strategy,
    issued: Seq<Set<u64>>,
    reqs: Seq<Inbound>,
    acts: Seq<Action>,
    i: int,
    j: int,
)
    requires
        is_run(strategy, issued, reqs, acts),
        0 <= i <= j <= reqs.len(),
    ensures
        issued[i].subset_of(issued[j]),
    decreases j - i,
{
    if i < j {
        lemma_issued_grows(strategy, issued, reqs, acts, i, j - 1);
        let a = acts[j - 1];
        assert(step(strategy, issued[j - 1], reqs[j - 1], issued[j], a));
    }
}

/// A number handed out by a `generate_ok` reply is in the registry from that
/// step on, for the rest of the run.
pub proof fn lemma_issued_number_stays(
    strategy: Strategy,
    issued: Seq<Set<u64>>,
    reqs: Seq<Inbound>,
    acts: Seq<Action>,
    i: int,
    j: int,
    id: u64,
)
    requires
        is_run(strategy, issued, reqs, acts),
        0 <= i < j <= reqs.len(),
        sends_number(acts[i], id),
    ensures
        issued[j].contains(id),
{
    let a = acts[i];
    assert(step(strategy, issued[i], reqs[i], issued[i + 1], a));
    lemma_issued_grows(strategy, issued, reqs, acts, i + 1, j);
}

/// Under the checked-random strategy the numbers that a run hands out are
/// pairwise distinct, whatever the requests and however long the run.
pub proof fn lemma_checked_numbers_distinct(
    issued: Seq<Set<u64>>,
    reqs: Seq<Inbound>,
    acts: Seq<Action>,
)
    requires
        is_run(Strategy::CheckedRandom, issued, reqs, acts),
    ensures
        forall|i: int, j: int, a: u64, b: u64|
            0 <= i < j < reqs.len() && #[trigger] sends_number(acts[i], a) && #[trigger] sends_number(
                acts[j],
                b,
            ) ==> a != b,
{
    assert forall|i: int, j: int, a: u64, b: u64|
        0 <= i < j < reqs.len() && #[trigger] sends_number(acts[i], a) && #[trigger] sends_number(
            acts[j],
            b,
        ) implies a != b by {
        lemma_issued_number_stays(Strategy::CheckedRandom, issued, reqs, acts, i, j, a);
        let aj = acts[j];
        assert(step(Strategy::CheckedRandom, issued[j], reqs[j], issued[j + 1], aj));
    }
}

/// `act` sends a reply that carries the correlation token of `req`.
pub open spec fn answers(act: Action, req: Inbound) -> bool {
    match act {
        Action::Send(reply) => correlated(reply, req),
        _ => false,
    }
}

/// Every reply of a run carries the correlation token of the request that
/// caused it; when the requests' tokens are distinct, it carries no other
/// request's token.
pub proof fn lemma_replies_correlated(
    strategy: Strategy,
    issued: Seq<Set<u64>>,
    reqs: Seq<Inbound>,
    acts: Seq<Action>,
)
    requires
        is_run(strategy, issued, reqs, acts),
    ensures
        forall|i: int| 0 <= i < reqs.len() && #[trigger] acts[i] is Send ==> answers(acts[i], reqs[i]),
        distinct_tokens(reqs) ==> forall|i: int, j: int|
            0 <= i < reqs.len() && 0 <= j < reqs.len() && #[trigger] answers(acts[i], reqs[j])
                ==> i == j,
{
    assert forall|i: int| 0 <= i < reqs.len() && #[trigger] acts[i] is Send implies answers(
        acts[i],
        reqs[i],
    ) by {
        assert(step(strategy, issued[i], reqs[i], issued[i + 1], acts[i]));
    }
    if distinct_tokens(reqs) {
        assert forall|i: int, j: int|
            0 <= i < reqs.len() && 0 <= j < reqs.len() && #[trigger] answers(
                acts[i],
                reqs[j],
            ) implies i == j by {
            assert(step(strategy, issued[i], reqs[i], issued[i + 1], acts[i]));
            if i != j {
                assert(reqs[i].src == reqs[j].src);
            }
        }
    }
}

/// Along a run, every `init` and every `generate` is answered by exactly
/// one reply and every other request is acknowledged; the one exception is
/// a checked-random `generate` on a node that has already issued numbers,
/// which may end exhausted with no reply.
pub proof fn lemma_replies_owed(
    strategy: Strategy,
    issued: Seq<Set<u64>>,
    reqs: Seq<Inbound>,
    acts: Seq<Action>,
)
    requires
        is_run(strategy, issued, reqs, acts),
    ensures
        forall|i: int|
            0 <= i < reqs.len() ==> match kind_of(reqs[i].typ@) {
                RequestKind::Unrecognized => #[trigger] acts[i] == Action::Acknowledge,
                RequestKind::Init => acts[i] is Send,
                RequestKind::Generate => acts[i] is Send || (strategy == Strategy::CheckedRandom
                    && issued[i] != Set::<u64>::empty() && acts[i] == Action::Exhausted),
            },
{
    assert forall|i: int| 0 <= i < reqs.len() implies match kind_of(reqs[i].typ@) {
        RequestKind::Unrecognized => #[trigger] acts[i] == Action::Acknowledge,
        RequestKind::Init => acts[i] is Send,
        RequestKind::Generate => acts[i] is Send || (strategy == Strategy::CheckedRandom
            && issued[i] != Set::<u64>::empty() && acts[i] == Action::Exhausted),
    } by {
        assert(step(strategy, issued[i], reqs[i], issued[i + 1], acts[i]));
    }
}

/// Two `init` requests in a row each get their own `init_ok` reply, and the
/// node's issued identifiers are left as they were.
pub proof fn lemma_init_twice(
    strategy: Strategy,
    issued: Seq<Set<u64>>,
    reqs: Seq<Inbound>,
    acts: Seq<Action>,
)
    requires
        is_run(strategy, issued, reqs, acts),
        reqs.len() == 2,
        kind_of(reqs[0].typ@) == RequestKind::Init,
        kind_of(reqs[1].typ@) == RequestKind::Init,
    ensures
        issued[2] == issued[0],
        acts[0] == Action::Send(
            (Reply { dest: reqs[0].src, in_reply_to: reqs[0].msg_id, body: ReplyBody::InitOk }),
        ),
        acts[1] == Action::Send(
            (Reply { dest: reqs[1].src, in_reply_to: reqs[1].msg_id, body: ReplyBody::InitOk }),
        ),
{
    assert(step(strategy, issued[0], reqs[0], issued[1], acts[0]));
    assert(step(strategy, issued[1], reqs[1], issued[2], acts[1]));
}

} // verus!
