use graph_txn::context::TxnContext;
use graph_txn::error::{Exchange, TxnError};
use graph_txn::txn::Txn;

fn ctx(start_ts: u64, keys: &[&str], preds: &[&str]) -> TxnContext {
    TxnContext {
        start_ts,
        keys: keys.iter().map(|s| s.to_string()).collect(),
        preds: preds.iter().map(|s| s.to_string()).collect(),
        aborted: false,
    }
}

fn sorted(mut items: Vec<String>) -> Vec<String> {
    items.sort();
    items
}

#[test]
fn first_context_sets_the_start_timestamp() {
    let mut txn = Txn::new(false);
    assert_eq!(txn.merge_context(&ctx(42, &["a", "b"], &["p"])), Ok(()));
    assert_eq!(txn.context(), &ctx(42, &["a", "b"], &["p"]));
}

#[test]
fn merge_appends_without_deduplicating() {
    let mut txn = Txn::new(false);
    assert_eq!(txn.merge_context(&ctx(42, &["a", "b"], &["p"])), Ok(()));
    assert_eq!(txn.merge_context(&ctx(42, &["b", "a", "c"], &["p", "q"])), Ok(()));
    assert_eq!(txn.merge_context(&ctx(42, &[], &[])), Ok(()));
    assert_eq!(txn.context(), &ctx(42, &["a", "b", "b", "a", "c"], &["p", "p", "q"]));
}

#[test]
fn merge_with_another_start_timestamp_changes_nothing() {
    let mut txn = Txn::new(false);
    assert_eq!(txn.merge_context(&ctx(42, &["a"], &["p"])), Ok(()));
    assert_eq!(txn.merge_context(&ctx(7, &["b"], &["q"])), Err(TxnError::Consistency));
    assert_eq!(txn.context(), &ctx(42, &["a"], &["p"]));
    assert_eq!(txn.merge_context(&ctx(0, &["b"], &["q"])), Err(TxnError::Consistency));
    assert_eq!(txn.context(), &ctx(42, &["a"], &["p"]));
}

#[test]
fn merge_of_an_unset_timestamp_into_an_unset_one() {
    let mut txn = Txn::new(false);
    assert_eq!(txn.merge_context(&ctx(0, &["a"], &[])), Ok(()));
    assert_eq!(txn.context(), &ctx(0, &["a"], &[]));
    assert_eq!(txn.merge_context(&ctx(9, &["b"], &[])), Ok(()));
    assert_eq!(txn.context(), &ctx(9, &["a", "b"], &[]));
}

#[test]
fn merge_leaves_the_abort_mark_and_the_flags_alone() {
    let mut txn = Txn::new(true);
    let mut incoming = ctx(5, &["a"], &[]);
    incoming.aborted = true;
    assert_eq!(txn.merge_context(&incoming), Ok(()));
    assert!(!txn.context().aborted);
    assert!(txn.is_read_only());
    assert!(!txn.is_finished());
    assert!(!txn.has_mutated());
}

#[test]
fn different_timestamps_fail_in_either_order() {
    let a = ctx(42, &["a"], &[]);
    let b = ctx(7, &["b"], &[]);

    let mut txn = Txn::new(false);
    assert_eq!(txn.merge_context(&a), Ok(()));
    assert_eq!(txn.merge_context(&b), Err(TxnError::Consistency));

    let mut txn = Txn::new(false);
    assert_eq!(txn.merge_context(&b), Ok(()));
    assert_eq!(txn.merge_context(&a), Err(TxnError::Consistency));

    let mut txn = Txn::new(false);
    assert_eq!(txn.merge_context(&ctx(3, &[], &[])), Ok(()));
    assert_eq!(txn.merge_context(&a), Err(TxnError::Consistency));
    assert_eq!(txn.merge_context(&b), Err(TxnError::Consistency));
}

#[test]
fn accumulation_does_not_depend_on_the_order() {
    let a = ctx(42, &["a1", "a2"], &["p"]);
    let b = ctx(42, &["b1"], &["q", "p"]);

    let mut one = Txn::new(false);
    assert_eq!(one.merge_context(&a), Ok(()));
    assert_eq!(one.merge_context(&b), Ok(()));
    let mut other = Txn::new(false);
    assert_eq!(other.merge_context(&b), Ok(()));
    assert_eq!(other.merge_context(&a), Ok(()));

    assert_eq!(one.context().keys, vec!["a1", "a2", "b1"]);
    assert_eq!(other.context().keys, vec!["b1", "a1", "a2"]);
    assert_eq!(one.context().start_ts, other.context().start_ts);
    assert_eq!(sorted(one.context().keys.clone()), sorted(other.context().keys.clone()));
    assert_eq!(sorted(one.context().preds.clone()), sorted(other.context().preds.clone()));
}

#[test]
fn merging_one_by_one_equals_merging_the_merged() {
    let a = ctx(42, &["a1", "a2"], &["p"]);
    let b = ctx(42, &["b1"], &["q"]);

    let mut stepwise = Txn::new(false);
    assert_eq!(stepwise.merge_context(&ctx(42, &["l"], &[])), Ok(()));
    assert_eq!(stepwise.merge_context(&a), Ok(()));
    assert_eq!(stepwise.merge_context(&b), Ok(()));

    let mut combined = Txn::new(false);
    assert_eq!(combined.merge_context(&a), Ok(()));
    assert_eq!(combined.merge_context(&b), Ok(()));
    let mut at_once = Txn::new(false);
    assert_eq!(at_once.merge_context(&ctx(42, &["l"], &[])), Ok(()));
    assert_eq!(at_once.merge_context(combined.context()), Ok(()));

    assert_eq!(stepwise.context(), at_once.context());
    assert_eq!(stepwise.context(), &ctx(42, &["l", "a1", "a2", "b1"], &["p", "q"]));
}

#[test]
fn clone_of_a_context_is_equal_and_separate() {
    let source = ctx(42, &["a", "b"], &["p"]);
    let mut copy = source.clone();
    assert_eq!(copy, source);
    copy.keys.push("c".to_string());
    assert_eq!(source, ctx(42, &["a", "b"], &["p"]));
    assert_ne!(copy, source);
}

#[test]
fn every_error_has_its_message() {
    assert_eq!(
        TxnError::Finished.message(),
        "transaction has already been committed or discarded"
    );
    assert_eq!(TxnError::ReadOnly.message(), "transaction is read-only");
    assert_eq!(
        TxnError::Configuration.message(),
        "best effort only valid for read-only transactions"
    );
    assert_eq!(
        TxnError::Protocol(Exchange::Query).message(),
        "empty transaction context in query response"
    );
    assert_eq!(
        TxnError::Protocol(Exchange::Mutation).message(),
        "missing transaction context on mutation response"
    );
    assert_eq!(
        TxnError::Consistency.message(),
        "inconsistent start timestamp across operations"
    );
}
