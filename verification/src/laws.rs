//! What holds of a transaction whatever is done with it, proved over the
//! model against which the operations are specified.

use std::collections::HashMap;
use vstd::prelude::*;
use vstd::seq_lib::lemma_multiset_commutative;

use crate::context::ContextView;
use crate::error::TxnError;
use crate::message::{Mutation, Request};
use crate::model::{mutate_request, query_request, Step, TxnView};

verus! {

/// Merging is associative: folding `a` and then `b` into the local context
/// gives what folding in their own merge gives, and the latter is admitted
/// wherever the two single merges and the merge of `b` into `a` are.
pub proof fn law_merge_is_associative(local: ContextView, a: ContextView, b: ContextView)
    requires
        local.admits(a),
        local.merge(a).admits(b),
        a.admits(b),
    ensures
        local.admits(a.merge(b)),
        local.merge(a).merge(b) == local.merge(a.merge(b)),
{
    assert((local.keys + a.keys) + b.keys =~= local.keys + (a.keys + b.keys));
    assert((local.preds + a.preds) + b.preds =~= local.preds + (a.preds + b.preds));
}

/// What has accumulated does not depend on the order of two merges: where
/// both orders are admitted, they end at the same snapshot and the same abort
/// mark, and hold the same keys and the same predicates, each as often.
pub proof fn law_merge_ignores_order(local: ContextView, a: ContextView, b: ContextView)
    requires
        local.admits(a),
        local.merge(a).admits(b),
        local.admits(b),
        local.merge(b).admits(a),
    ensures
        local.merge(a).merge(b).start_ts == local.merge(b).merge(a).start_ts,
        local.merge(a).merge(b).aborted == local.merge(b).merge(a).aborted,
        local.merge(a).merge(b).keys.to_multiset() == local.merge(b).merge(a).keys.to_multiset(),
        local.merge(a).merge(b).preds.to_multiset() == local.merge(b).merge(a).preds.to_multiset(),
{
    lemma_multiset_commutative(local.keys + a.keys, b.keys);
    lemma_multiset_commutative(local.keys, a.keys);
    lemma_multiset_commutative(local.keys + b.keys, a.keys);
    lemma_multiset_commutative(local.keys, b.keys);
    assert(local.merge(a).merge(b).keys.to_multiset() =~= local.merge(b).merge(
        a,
    ).keys.to_multiset());
    lemma_multiset_commutative(local.preds + a.preds, b.preds);
    lemma_multiset_commutative(local.preds, a.preds);
    lemma_multiset_commutative(local.preds + b.preds, a.preds);
    lemma_multiset_commutative(local.preds, b.preds);
    assert(local.merge(a).merge(b).preds.to_multiset() =~= local.merge(b).merge(
        a,
    ).preds.to_multiset());
}

/// Merging is strict on the snapshot: of two contexts with different start
/// timestamps, neither of them 0, at most one is ever admitted, in whichever
/// order they come and whatever the local context is. The other is refused,
/// which `merge_context` reports as `TxnError::Consistency`.
pub proof fn law_merge_is_strict(local: ContextView, a: ContextView, b: ContextView)
    requires
        a.start_ts != 0,
        b.start_ts != 0,
        a.start_ts != b.start_ts,
    ensures
        !a.admits(b),
        !b.admits(a),
        !(local.admits(a) && local.absorb(a).admits(b)),
        !(local.admits(b) && local.absorb(b).admits(a)),
{
}

/// A finished transaction refuses every query, every mutation and a commit
/// with `TxnError::Finished`, and the refusal changes nothing.
pub proof fn law_finished_refuses(
    s: TxnView,
    query: String,
    vars: HashMap<String, String>,
    mu: Mutation,
)
    requires
        s.finished,
    ensures
        query_request(s, query, vars) == Err::<Request, TxnError>(TxnError::Finished),
        mutate_request(s, mu) == Err::<Mutation, TxnError>(TxnError::Finished),
        s.after_mutate_request() == s,
        s.commit_call() == Err::<Option<ContextView>, TxnError>(TxnError::Finished),
        s.after_commit() == s,
{
}

/// Once finished, a transaction stays finished whatever is done with it.
pub proof fn law_finished_is_final(s: TxnView, steps: Seq<Step>)
    requires
        s.finished,
    ensures
        s.run(steps).finished,
    decreases steps.len(),
{
    if steps.len() > 0 {
        law_finished_is_final(s, steps.drop_last());
    }
}

/// Whatever is done with a transaction, it stays read-only or read-write as
/// it was created, and it stays well formed.
pub proof fn law_run_keeps_shape(s: TxnView, steps: Seq<Step>)
    ensures
        s.run(steps).read_only == s.read_only,
        s.wf() ==> s.run(steps).wf(),
    decreases steps.len(),
{
    if steps.len() > 0 {
        law_run_keeps_shape(s, steps.drop_last());
    }
}

/// Once the start timestamp is set, nothing that is done with the transaction
/// changes it.
pub proof fn law_snapshot_is_fixed(s: TxnView, steps: Seq<Step>)
    requires
        s.context.start_ts != 0,
    ensures
        s.run(steps).context.start_ts == s.context.start_ts,
    decreases steps.len(),
{
    if steps.len() > 0 {
        law_snapshot_is_fixed(s, steps.drop_last());
    }
}

/// The keys and the predicates only grow, at their ends: whatever is done with
/// the transaction, what it held before is still there, in its place. And an
/// abort mark, once set, stays.
pub proof fn law_context_only_grows(s: TxnView, steps: Seq<Step>)
    ensures
        s.context.keys.is_prefix_of(s.run(steps).context.keys),
        s.context.preds.is_prefix_of(s.run(steps).context.preds),
        s.context.aborted ==> s.run(steps).context.aborted,
    decreases steps.len(),
{
    if steps.len() > 0 {
        law_context_only_grows(s, steps.drop_last());
    }
}

/// Discarding converges. After one discard or many, in whatever state the
/// first one found the transaction, it is finished and marked as aborted, and
/// is in the state the first discard left it in; a further discard has nothing
/// to tell the server and so succeeds on the spot. The first discard has
/// something to tell the server only where the transaction is open and a
/// mutation has been attempted.
pub proof fn law_discard_converges(s: TxnView, steps: Seq<Step>)
    requires
        steps.len() >= 1,
        forall|i: int| 0 <= i < steps.len() ==> steps[i] == Step::Discard,
    ensures
        s.run(steps) == s.after_discard(),
        s.run(steps).finished,
        s.run(steps).context.aborted,
        s.run(steps).discard_call() is None,
        s.discard_call() is None <==> !s.owes_server(),
    decreases steps.len(),
{
    if steps.len() == 1 {
        assert(steps.drop_last().len() == 0);
        assert(s.run(steps.drop_last()) == s);
    } else {
        law_discard_converges(s, steps.drop_last());
    }
}

/// Of commit and discard, the first wins. Once the transaction has been ended
/// by `first`, nothing more is ever sent to the server's commit-or-abort
/// operation: a discard and the shared end succeed without a round trip, and
/// a commit is refused with `TxnError::Finished`. Ending it again changes
/// nothing, but that a discard sets the abort mark.
pub proof fn law_first_end_wins(s: TxnView, first: Step)
    requires
        first == Step::Discard || first == Step::CommitOrAbort || (first == Step::Commit
            && s.commit_call() is Ok),
    ensures
        s.step(first).finished,
        s.step(first).discard_call() is None,
        s.step(first).commit_or_abort_call() is None,
        s.step(first).commit_call() == Err::<Option<ContextView>, TxnError>(TxnError::Finished),
        s.step(first).after_commit_or_abort() == s.step(first),
        s.step(first).after_commit() == s.step(first),
        s.step(first).after_discard() == s.step(first).after_discard_mark(),
{
}

/// A commit that is refused needs no cleanup: the transaction it gives up,
/// if well formed, owes the server nothing, so that a discard of it would
/// succeed without a round trip.
pub proof fn law_refused_commit_owes_nothing(s: TxnView)
    requires
        s.wf(),
        s.commit_call() is Err,
    ensures
        s.after_commit() == s,
        s.discard_call() is None,
{
}

/// A transaction without a mutation never reaches the server's
/// commit-or-abort operation. Whatever queries it has completed, with whatever
/// outcomes, ending it takes no round trip.
pub proof fn law_queries_owe_nothing(s: TxnView, steps: Seq<Step>)
    requires
        !s.mutated,
        forall|i: int| 0 <= i < steps.len() ==> steps[i] is QueryDone,
    ensures
        !s.run(steps).mutated,
        s.run(steps).discard_call() is None,
        s.run(steps).commit_or_abort_call() is None,
    decreases steps.len(),
{
    if steps.len() > 0 {
        law_queries_owe_nothing(s, steps.drop_last());
    }
}

/// A read-only transaction never reaches the server's commit-or-abort
/// operation, whatever is done with it.
pub proof fn law_read_only_owes_nothing(s: TxnView, steps: Seq<Step>)
    requires
        s.wf(),
        s.read_only,
    ensures
        s.run(steps).discard_call() is None,
        s.run(steps).commit_or_abort_call() is None,
        s.run(steps).commit_call() is Err,
{
    law_run_keeps_shape(s, steps);
}

} // verus!
