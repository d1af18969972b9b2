//! The transaction as a state machine over mathematical values. The
//! executable operations are specified against the transitions defined here.

use vstd::prelude::*;

use crate::context::ContextView;
use crate::error::{CallError, Exchange, TxnError};
use crate::message::{Assigned, Mutation, Request, Response};
use std::collections::HashMap;

verus! {

/// What a `Txn` stands for.
pub struct TxnView {
    /// The context accumulated so far.
    pub context: ContextView,
    /// Whether a commit or a discard has taken effect.
    pub finished: bool,
    /// Whether the transaction may only read. Fixed at creation.
    pub read_only: bool,
    /// Whether the server may answer queries from a cached timestamp.
    pub best_effort: bool,
    /// Whether a mutation has been attempted.
    pub mutated: bool,
}

/// What the outcome of a round trip means to the transaction.
pub enum Reply {
    /// The connection reported an error.
    Failed,
    /// The server answered without a transaction context.
    Bare,
    /// The server answered with this transaction context.
    Carrying(ContextView),
}

/// One operation on a transaction, with what it is given.
pub enum Step {
    /// `best_effort`.
    BestEffort,
    /// `merge_context` with this context.
    Merge(ContextView),
    /// `complete_query` with an outcome of this meaning.
    QueryDone(Reply),
    /// `mutate`.
    Mutate,
    /// `complete_mutate` with this `commit_now` and an outcome of this meaning.
    MutateDone(bool, Reply),
    /// `commit`.
    Commit,
    /// `commit_or_abort`.
    CommitOrAbort,
    /// `discard`.
    Discard,
}

/// The meaning of a query's outcome.
pub open spec fn query_reply<E>(outcome: Result<Response, E>) -> Reply {
    match outcome {
        Err(_) => Reply::Failed,
        Ok(response) => match response.txn {
            None => Reply::Bare,
            Some(ctx) => Reply::Carrying(ctx@),
        },
    }
}

/// The meaning of a mutation's outcome.
pub open spec fn mutate_reply<E>(outcome: Result<Assigned, E>) -> Reply {
    match outcome {
        Err(_) => Reply::Failed,
        Ok(assigned) => match assigned.context {
            None => Reply::Bare,
            Some(ctx) => Reply::Carrying(ctx@),
        },
    }
}

impl TxnView {
    /// A transaction as it is created: unfinished, unmutated, without a
    /// snapshot.
    pub open spec fn fresh(read_only: bool) -> TxnView {
        TxnView {
            context: ContextView::empty(),
            finished: false,
            read_only,
            best_effort: false,
            mutated: false,
        }
    }

    /// What holds of every transaction: a read-only transaction has never
    /// attempted a mutation, and only a read-only one is in best-effort mode.
    pub open spec fn wf(self) -> bool {
        &&& self.read_only ==> !self.mutated
        &&& self.best_effort ==> self.read_only
    }

    /// Whether ending the transaction now takes a call to the server: it is
    /// still open and a mutation has been attempted.
    pub open spec fn owes_server(self) -> bool {
        !self.finished && self.mutated
    }

    /// The context to send to the server's commit-or-abort operation when the
    /// transaction is ended in this state, if the server has to be told at all.
    pub open spec fn commit_or_abort_call(self) -> Option<ContextView> {
        if self.owes_server() {
            Some(self.context)
        } else {
            None
        }
    }

    /// The context to send to the server's commit-or-abort operation when the
    /// transaction is discarded in this state: the one of
    /// `commit_or_abort_call`, marked as aborted.
    pub open spec fn discard_call(self) -> Option<ContextView> {
        self.after_discard_mark().commit_or_abort_call()
    }

    /// What `commit` returns in this state: the refusal, or else the context
    /// to send to the server's commit-or-abort operation, if any.
    pub open spec fn commit_call(self) -> Result<Option<ContextView>, TxnError> {
        if self.finished {
            Err(TxnError::Finished)
        } else if self.read_only {
            Err(TxnError::ReadOnly)
        } else {
            Ok(self.commit_or_abort_call())
        }
    }

    /// The context to send to the server's commit-or-abort operation once the
    /// outcome of a mutation has been taken in: the one of a discard where the
    /// round trip failed, none otherwise.
    pub open spec fn mutate_cleanup_call(self, reply: Reply) -> Option<ContextView> {
        match reply {
            Reply::Failed => self.discard_call(),
            _ => None,
        }
    }

    /// The state once the context is marked as aborted.
    pub open spec fn after_discard_mark(self) -> TxnView {
        TxnView { context: ContextView { aborted: true, ..self.context }, ..self }
    }

    /// The state after `best_effort`.
    pub open spec fn after_best_effort(self) -> TxnView {
        if self.read_only {
            TxnView { best_effort: true, ..self }
        } else {
            self
        }
    }

    /// The state after the context `incoming` was offered for merging.
    pub open spec fn after_merge(self, incoming: ContextView) -> TxnView {
        TxnView { context: self.context.absorb(incoming), ..self }
    }

    /// The state after the outcome of a query has been taken in.
    pub open spec fn after_query(self, reply: Reply) -> TxnView {
        match reply {
            Reply::Carrying(incoming) => self.after_merge(incoming),
            _ => self,
        }
    }

    /// The state after `mutate`.
    pub open spec fn after_mutate_request(self) -> TxnView {
        if self.finished || self.read_only {
            self
        } else {
            TxnView { mutated: true, ..self }
        }
    }

    /// The state after the shared end of commit and discard.
    pub open spec fn after_commit_or_abort(self) -> TxnView {
        TxnView { finished: true, ..self }
    }

    /// The state after `discard`.
    pub open spec fn after_discard(self) -> TxnView {
        self.after_discard_mark().after_commit_or_abort()
    }

    /// The bookkeeping that `commit` leaves behind when it gives the
    /// transaction up.
    pub open spec fn after_commit(self) -> TxnView {
        if self.finished || self.read_only {
            self
        } else {
            self.after_commit_or_abort()
        }
    }

    /// The state after one operation. Preparing a query is none: it changes
    /// nothing.
    pub open spec fn step(self, t: Step) -> TxnView {
        match t {
            Step::BestEffort => self.after_best_effort(),
            Step::Merge(incoming) => self.after_merge(incoming),
            Step::QueryDone(reply) => self.after_query(reply),
            Step::Mutate => self.after_mutate_request(),
            Step::MutateDone(commit_now, reply) => self.after_mutate(commit_now, reply),
            Step::Commit => self.after_commit(),
            Step::CommitOrAbort => self.after_commit_or_abort(),
            Step::Discard => self.after_discard(),
        }
    }

    /// The state after a series of operations, the first of `steps` first.
    pub open spec fn run(self, steps: Seq<Step>) -> TxnView
        decreases steps.len(),
    {
        if steps.len() == 0 {
            self
        } else {
            self.run(steps.drop_last()).step(steps.last())
        }
    }

    /// The state after the outcome of a mutation has been taken in. `commit_now`
    /// says whether the mutation asked the server to commit at once.
    pub open spec fn after_mutate(self, commit_now: bool, reply: Reply) -> TxnView {
        let settled = if commit_now {
            self.after_commit_or_abort()
        } else {
            self
        };
        match reply {
            Reply::Failed => self.after_discard(),
            Reply::Bare => settled,
            Reply::Carrying(incoming) => settled.after_merge(incoming),
        }
    }
}

/// What `query_with_vars` returns in state `s`: the refusal of a finished
/// transaction, or else the request made of the text and the bindings given
/// and of the transaction's flags.
pub open spec fn query_request(s: TxnView, query: String, vars: HashMap<String, String>) -> Result<
    Request,
    TxnError,
> {
    if s.finished {
        Err(TxnError::Finished)
    } else {
        Ok(Request { query, vars, read_only: s.read_only, best_effort: s.best_effort })
    }
}

/// What `mutate` returns in state `s` for the mutation `mu`: the refusal of a
/// finished or read-only transaction, or else `mu` stamped with the start
/// timestamp.
pub open spec fn mutate_request(s: TxnView, mu: Mutation) -> Result<Mutation, TxnError> {
    if s.finished {
        Err(TxnError::Finished)
    } else if s.read_only {
        Err(TxnError::ReadOnly)
    } else {
        Ok(Mutation { start_ts: s.context.start_ts, ..mu })
    }
}

/// What the caller of a query gets in state `s` for the outcome of the round
/// trip.
pub open spec fn query_result<E>(s: TxnView, outcome: Result<Response, E>) -> Result<
    Response,
    CallError<E>,
> {
    match outcome {
        Err(e) => Err(CallError::Transport(e)),
        Ok(response) => match response.txn {
            None => Err(CallError::Txn(TxnError::Protocol(Exchange::Query))),
            Some(ctx) => if s.context.admits(ctx@) {
                Ok(response)
            } else {
                Err(CallError::Txn(TxnError::Consistency))
            },
        },
    }
}

/// What the caller of a mutation gets in state `s` for the outcome of the
/// round trip.
pub open spec fn mutate_result<E>(s: TxnView, outcome: Result<Assigned, E>) -> Result<
    Assigned,
    CallError<E>,
> {
    match outcome {
        Err(e) => Err(CallError::Transport(e)),
        Ok(assigned) => match assigned.context {
            None => Err(CallError::Txn(TxnError::Protocol(Exchange::Mutation))),
            Some(ctx) => if s.context.admits(ctx@) {
                Ok(assigned)
            } else {
                Err(CallError::Txn(TxnError::Consistency))
            },
        },
    }
}

} // verus!
