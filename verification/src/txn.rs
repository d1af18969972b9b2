//! The transaction: its bookkeeping and the decisions taken around each round
//! trip to the server.

use std::collections::HashMap;
use vstd::prelude::*;

use crate::context::{view_of, ContextView, TxnContext};
use crate::error::{CallError, Exchange, TxnError};
use crate::message::{Assigned, Mutation, Request, Response};
use crate::model::{
    mutate_reply, mutate_request, mutate_result, query_reply, query_request, query_result, TxnView,
};

verus! {

/// One transaction. It is created open, is used for queries and mutations, and
/// is ended once, by `commit` or by `discard`.
pub struct Txn {
    context: TxnContext,
    finished: bool,
    read_only: bool,
    best_effort: bool,
    mutated: bool,
}

impl View for Txn {
    type V = TxnView;

    closed spec fn view(&self) -> TxnView {
        TxnView {
            context: self.context@,
            finished: self.finished,
            read_only: self.read_only,
            best_effort: self.best_effort,
            mutated: self.mutated,
        }
    }
}

impl Txn {
    /// Opens a transaction, read-only or read-write.
    pub fn new(read_only: bool) -> (txn: Txn)
        ensures
            txn@ == TxnView::fresh(read_only),
            txn@.wf(),
    {
        Txn {
            context: TxnContext::new(),
            finished: false,
            read_only,
            best_effort: false,
            mutated: false,
        }
    }

    /// The context accumulated so far.
    pub fn context(&self) -> (ctx: &TxnContext)
        ensures
            ctx@ == self@.context,
    {
        &self.context
    }

    /// Whether a commit or a discard has taken effect.
    pub fn is_finished(&self) -> (b: bool)
        ensures
            b == self@.finished,
    {
        self.finished
    }

    /// Whether the transaction may only read.
    pub fn is_read_only(&self) -> (b: bool)
        ensures
            b == self@.read_only,
    {
        self.read_only
    }

    /// Whether best-effort mode is on.
    pub fn is_best_effort(&self) -> (b: bool)
        ensures
            b == self@.best_effort,
    {
        self.best_effort
    }

    /// Whether a mutation has been attempted.
    pub fn has_mutated(&self) -> (b: bool)
        ensures
            b == self@.mutated,
    {
        self.mutated
    }

    /// Lets the server answer the queries of this transaction from a cached
    /// timestamp, and returns the transaction itself. Only a read-only
    /// transaction may ask for that; on a read-write one the call fails with
    /// `TxnError::Configuration` and changes nothing. Whether the transaction
    /// is finished makes no difference.
    pub fn best_effort(&mut self) -> (r: Result<&Txn, TxnError>)
        ensures
            final(self)@ == old(self)@.after_best_effort(),
            old(self)@.wf() ==> final(self)@.wf(),
            old(self)@.read_only ==> r == Ok::<&Txn, TxnError>(final(self)),
            !old(self)@.read_only ==> r == Err::<&Txn, TxnError>(TxnError::Configuration),
    {
        if !self.read_only {
            return Err(TxnError::Configuration);
        }
        self.best_effort = true;
        Ok(self)
    }

    /// Prepares a query without variables: `query_with_vars` with no binding.
    pub fn query(&self, query: String) -> (r: Result<Request, TxnError>)
        ensures
            self@.finished ==> r == Err::<Request, TxnError>(TxnError::Finished),
            !self@.finished ==> r is Ok,
            r matches Ok(request) ==> {
                &&& request.query == query
                &&& request.vars@ == Map::<String, String>::empty()
                &&& request.read_only == self@.read_only
                &&& request.best_effort == self@.best_effort
            },
    {
        self.query_with_vars(query, HashMap::new())
    }

    /// Prepares a query. On an open transaction the result is the request to
    /// send: the text and the bindings as given, with the transaction's
    /// read-only and best-effort flags. On a finished transaction the call
    /// fails with `TxnError::Finished`. The outcome of the round trip goes to
    /// `complete_query`.
    pub fn query_with_vars(&self, query: String, vars: HashMap<String, String>) -> (r: Result<
        Request,
        TxnError,
    >)
        ensures
            r == query_request(self@, query, vars),
    {
        if self.finished {
            return Err(TxnError::Finished);
        }
        Ok(Request { query, vars, read_only: self.read_only, best_effort: self.best_effort })
    }

    /// Takes in the outcome of a query's round trip. An error of the
    /// connection is handed back as it is. A response without a transaction
    /// context fails with `TxnError::Protocol`. Otherwise the context is merged
    /// as by `merge_context`, and the response is handed back whole if the
    /// merge succeeds. No outcome marks the transaction as mutated.
    pub fn complete_query<E>(&mut self, outcome: Result<Response, E>) -> (r: Result<
        Response,
        CallError<E>,
    >)
        ensures
            final(self)@ == old(self)@.after_query(query_reply(outcome)),
            old(self)@.wf() ==> final(self)@.wf(),
            r == query_result(old(self)@, outcome),
    {
        match outcome {
            Err(e) => Err(CallError::Transport(e)),
            Ok(response) => {
                let merged = match &response.txn {
                    None => Err(TxnError::Protocol(Exchange::Query)),
                    Some(ctx) => self.merge_context(ctx),
                };
                match merged {
                    Err(e) => Err(CallError::Txn(e)),
                    Ok(()) => Ok(response),
                }
            },
        }
    }

    /// Prepares a mutation. A finished transaction refuses with
    /// `TxnError::Finished`, an open read-only one with `TxnError::ReadOnly`;
    /// neither changes anything. Otherwise the transaction counts as mutated
    /// from now on, whatever becomes of the round trip, and the result is the
    /// mutation to send: the one given, stamped with the transaction's start
    /// timestamp. The outcome of the round trip goes to `complete_mutate`,
    /// together with the `commit_now` flag of the mutation sent.
    pub fn mutate(&mut self, mu: Mutation) -> (r: Result<Mutation, TxnError>)
        ensures
            final(self)@ == old(self)@.after_mutate_request(),
            old(self)@.wf() ==> final(self)@.wf(),
            r == mutate_request(old(self)@, mu),
    {
        if self.finished {
            return Err(TxnError::Finished);
        }
        if self.read_only {
            return Err(TxnError::ReadOnly);
        }
        self.mutated = true;
        let mut mu = mu;
        mu.start_ts = self.context.start_ts;
        Ok(mu)
    }

    /// Takes in the outcome of a mutation's round trip. The first component of
    /// the result is what the caller of the mutation gets; the second is the
    /// context to send to the server's commit-or-abort operation before
    /// returning, whose own outcome is to be ignored.
    ///
    /// Where the connection failed, the transaction is discarded and the
    /// connection's error handed back as it is. Where the server answered and
    /// `commit_now` is set, the transaction is finished at once. A response
    /// without a transaction context then fails with `TxnError::Protocol`;
    /// otherwise the context is merged as by `merge_context`, and the response
    /// is handed back whole if the merge succeeds.
    pub fn complete_mutate<E>(&mut self, commit_now: bool, outcome: Result<Assigned, E>) -> (r: (
        Result<Assigned, CallError<E>>,
        Option<TxnContext>,
    ))
        ensures
            final(self)@ == old(self)@.after_mutate(commit_now, mutate_reply(outcome)),
            old(self)@.wf() ==> final(self)@.wf(),
            r.0 == mutate_result(old(self)@, outcome),
            view_of(r.1) == old(self)@.mutate_cleanup_call(mutate_reply(outcome)),
    {
        match outcome {
            Err(e) => {
                let cleanup = self.discard();
                (Err(CallError::Transport(e)), cleanup)
            },
            Ok(assigned) => {
                if commit_now {
                    self.finished = true;
                }
                let merged = match &assigned.context {
                    None => Err(TxnError::Protocol(Exchange::Mutation)),
                    Some(ctx) => self.merge_context(ctx),
                };
                match merged {
                    Err(e) => (Err(CallError::Txn(e)), None),
                    Ok(()) => (Ok(assigned), None),
                }
            },
        }
    }

    /// Commits the transaction and gives it up. A finished transaction
    /// refuses with `TxnError::Finished`, an open read-only one with
    /// `TxnError::ReadOnly`. Otherwise the result is the context to send to the
    /// server's commit-or-abort operation, whose outcome is the outcome of the
    /// commit; it is `None` where no mutation was attempted, and the commit has
    /// then succeeded without a round trip.
    pub fn commit(self) -> (r: Result<Option<TxnContext>, TxnError>)
        ensures
            match r {
                Ok(call) => self@.commit_call() == Ok::<Option<ContextView>, TxnError>(
                    view_of(call),
                ),
                Err(e) => self@.commit_call() == Err::<Option<ContextView>, TxnError>(e),
            },
    {
        if self.finished {
            return Err(TxnError::Finished);
        }
        if self.read_only {
            return Err(TxnError::ReadOnly);
        }
        let mut txn = self;
        Ok(txn.commit_or_abort())
    }

    /// Ends the transaction by rolling it back. This is always allowed, any
    /// number of times: the context is marked as aborted, and the rest is
    /// `commit_or_abort`. The result is the context to send to the server's
    /// commit-or-abort operation, if the server has to be told.
    pub fn discard(&mut self) -> (call: Option<TxnContext>)
        ensures
            final(self)@ == old(self)@.after_discard(),
            old(self)@.wf() ==> final(self)@.wf(),
            view_of(call) == old(self)@.discard_call(),
    {
        self.context.aborted = true;
        self.commit_or_abort()
    }

    /// The shared end of commit and discard. The transaction is finished from
    /// now on. The result is the context to send to the server's
    /// commit-or-abort operation, whose outcome is the outcome of the call. It
    /// is `None`, and the call has succeeded without a round trip, where the
    /// transaction was finished already or no mutation was ever attempted.
    pub fn commit_or_abort(&mut self) -> (call: Option<TxnContext>)
        ensures
            final(self)@ == old(self)@.after_commit_or_abort(),
            old(self)@.wf() ==> final(self)@.wf(),
            view_of(call) == old(self)@.commit_or_abort_call(),
    {
        if self.finished {
            return None;
        }
        self.finished = true;
        if !self.mutated {
            return None;
        }
        Some(self.context.clone())
    }

    /// Folds a context that the server returned into the local one. The first
    /// context fixes the snapshot; every later one has to name the same
    /// snapshot, else nothing is merged and the call fails with
    /// `TxnError::Consistency`.
    pub fn merge_context(&mut self, src: &TxnContext) -> (r: Result<(), TxnError>)
        ensures
            final(self)@ == old(self)@.after_merge(src@),
            old(self)@.wf() ==> final(self)@.wf(),
            old(self)@.context.admits(src@) ==> r == Ok::<(), TxnError>(()),
            !old(self)@.context.admits(src@) ==> r == Err::<(), TxnError>(TxnError::Consistency),
    {
        if self.context.start_ts == 0 {
            self.context.start_ts = src.start_ts;
        }
        if self.context.start_ts != src.start_ts {
            return Err(TxnError::Consistency);
        }
        let ghost keys_before = self.context.keys.deep_view();
        let ghost preds_before = self.context.preds.deep_view();
        let mut i: usize = 0;
        while i < src.keys.len()
            invariant
                i <= src.keys.len(),
                self.context.keys.deep_view() == keys_before + src.keys.deep_view().subrange(
                    0,
                    i as int,
                ),
                self.context.preds.deep_view() == preds_before,
                self.context.start_ts == src.start_ts,
                self.context.aborted == old(self).context.aborted,
                self.finished == old(self).finished,
                self.read_only == old(self).read_only,
                self.best_effort == old(self).best_effort,
                self.mutated == old(self).mutated,
            decreases src.keys.len() - i,
        {
            let ghost so_far = self.context.keys.deep_view();
            self.context.keys.push(src.keys[i].clone());
            assert(self.context.keys.deep_view() =~= so_far.push(src.keys[i as int]@));
            assert(src.keys.deep_view().subrange(0, i + 1) =~= src.keys.deep_view().subrange(
                0,
                i as int,
            ).push(src.keys[i as int]@));
            i += 1;
        }
        assert(src.keys.deep_view().subrange(0, i as int) =~= src.keys.deep_view());
        let mut j: usize = 0;
        while j < src.preds.len()
            invariant
                j <= src.preds.len(),
                self.context.preds.deep_view() == preds_before + src.preds.deep_view().subrange(
                    0,
                    j as int,
                ),
                self.context.keys.deep_view() == keys_before + src.keys.deep_view(),
                self.context.start_ts == src.start_ts,
                self.context.aborted == old(self).context.aborted,
                self.finished == old(self).finished,
                self.read_only == old(self).read_only,
                self.best_effort == old(self).best_effort,
                self.mutated == old(self).mutated,
            decreases src.preds.len() - j,
        {
            let ghost so_far = self.context.preds.deep_view();
            self.context.preds.push(src.preds[j].clone());
            assert(self.context.preds.deep_view() =~= so_far.push(src.preds[j as int]@));
            assert(src.preds.deep_view().subrange(0, j + 1) =~= src.preds.deep_view().subrange(
                0,
                j as int,
            ).push(src.preds[j as int]@));
            j += 1;
        }
        assert(src.preds.deep_view().subrange(0, j as int) =~= src.preds.deep_view());
        Ok(())
    }
}

} // verus!
