//! The bookkeeping that the server needs to detect conflicts: the snapshot a
//! transaction reads at and everything it has touched so far.

use vstd::prelude::*;

verus! {

/// The context of one transaction, as it travels between client and server.
#[derive(Debug, PartialEq, Eq)]
pub struct TxnContext {
    /// The snapshot timestamp; 0 while the server has not assigned one.
    pub start_ts: u64,
    /// Conflict keys, in the order in which they were reported.
    pub keys: Vec<String>,
    /// Names of the predicates touched, in the order in which they were reported.
    pub preds: Vec<String>,
    /// Whether the transaction is to be rolled back rather than applied.
    pub aborted: bool,
}

/// What a `TxnContext` stands for.
pub struct ContextView {
    pub start_ts: u64,
    pub keys: Seq<Seq<char>>,
    pub preds: Seq<Seq<char>>,
    pub aborted: bool,
}

impl View for TxnContext {
    type V = ContextView;

    open spec fn view(&self) -> ContextView {
        ContextView {
            start_ts: self.start_ts,
            keys: self.keys.deep_view(),
            preds: self.preds.deep_view(),
            aborted: self.aborted,
        }
    }
}

impl ContextView {
    /// The context of a transaction that has not talked to the server yet.
    pub open spec fn empty() -> ContextView {
        ContextView { start_ts: 0, keys: Seq::empty(), preds: Seq::empty(), aborted: false }
    }

    /// Whether a context that the server returned belongs to the same
    /// snapshot: either no snapshot is fixed yet, or it is the very same one.
    pub open spec fn admits(self, incoming: ContextView) -> bool {
        self.start_ts == 0 || self.start_ts == incoming.start_ts
    }

    /// The local context after an admitted `incoming` has been folded in: the
    /// snapshot is the incoming one, and what `incoming` touched is appended
    /// to what was touched before.
    pub open spec fn merge(self, incoming: ContextView) -> ContextView {
        ContextView {
            start_ts: incoming.start_ts,
            keys: self.keys + incoming.keys,
            preds: self.preds + incoming.preds,
            aborted: self.aborted,
        }
    }

    /// The local context after the server returned `incoming`: merged where it
    /// is admitted, untouched where it is not.
    pub open spec fn absorb(self, incoming: ContextView) -> ContextView {
        if self.admits(incoming) {
            self.merge(incoming)
        } else {
            self
        }
    }
}

/// What an optional context stands for: the view of the context, if there is
/// one.
pub open spec fn view_of(ctx: Option<TxnContext>) -> Option<ContextView> {
    match ctx {
        Some(ctx) => Some(ctx@),
        None => None,
    }
}

impl TxnContext {
    /// The context of a transaction that has not talked to the server yet.
    pub fn new() -> (ctx: TxnContext)
        ensures
            ctx@ == ContextView::empty(),
    {
        let ctx = TxnContext { start_ts: 0, keys: Vec::new(), preds: Vec::new(), aborted: false };
        assert(ctx.keys.deep_view() =~= Seq::<Seq<char>>::empty());
        assert(ctx.preds.deep_view() =~= Seq::<Seq<char>>::empty());
        ctx
    }
}

impl Clone for TxnContext {
    fn clone(&self) -> (copy: TxnContext)
        ensures
            copy@ == self@,
    {
        let copy = TxnContext {
            start_ts: self.start_ts,
            keys: self.keys.clone(),
            preds: self.preds.clone(),
            aborted: self.aborted,
        };
        assert(copy.keys.deep_view() =~= self.keys.deep_view());
        assert(copy.preds.deep_view() =~= self.preds.deep_view());
        copy
    }
}

} // verus!
