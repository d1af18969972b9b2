use graph_txn::context::TxnContext;
use graph_txn::error::TxnError;
use graph_txn::message::{Mutation, Response};
use graph_txn::txn::Txn;

fn touched(start_ts: u64, key: &str, pred: &str) -> TxnContext {
    TxnContext {
        start_ts,
        keys: vec![key.to_string()],
        preds: vec![pred.to_string()],
        aborted: false,
    }
}

fn mutation() -> Mutation {
    Mutation {
        set_json: Vec::new(),
        delete_json: Vec::new(),
        set_nquads: b"_:a <p> \"v\" .".to_vec(),
        del_nquads: Vec::new(),
        start_ts: 0,
        commit_now: false,
    }
}

fn mutated_txn() -> Txn {
    let mut txn = Txn::new(false);
    assert!(txn.mutate(mutation()).is_ok());
    assert_eq!(txn.merge_context(&touched(8, "k", "p")), Ok(()));
    txn
}

#[test]
fn new_transaction_is_open_and_empty() {
    for read_only in [false, true] {
        let txn = Txn::new(read_only);
        assert_eq!(txn.is_read_only(), read_only);
        assert!(!txn.is_finished());
        assert!(!txn.is_best_effort());
        assert!(!txn.has_mutated());
        assert_eq!(
            txn.context(),
            &TxnContext { start_ts: 0, keys: vec![], preds: vec![], aborted: false }
        );
    }
}

#[test]
fn discard_succeeds_any_number_of_times() {
    let mut txn = mutated_txn();
    let mut aborted = touched(8, "k", "p");
    aborted.aborted = true;
    assert_eq!(txn.discard(), Some(aborted.clone()));
    assert!(txn.is_finished());
    for _ in 0..5 {
        assert_eq!(txn.discard(), None);
        assert!(txn.is_finished());
        assert_eq!(txn.context(), &aborted);
    }
}

#[test]
fn discard_of_an_unmutated_transaction_tells_the_server_nothing() {
    let mut txn = Txn::new(false);
    assert_eq!(txn.merge_context(&touched(8, "k", "p")), Ok(()));
    assert_eq!(txn.discard(), None);
    assert!(txn.is_finished());
    assert!(txn.context().aborted);
}

#[test]
fn read_only_transaction_with_queries_never_owes_a_round_trip() {
    let mut txn = Txn::new(true);
    for round in 0..3 {
        assert!(txn.query("q".to_string()).is_ok());
        let reply = Response { txn: Some(touched(21, "k", "p")), json: vec![round] };
        assert!(txn.complete_query::<String>(Ok(reply)).is_ok());
    }
    assert_eq!(txn.context().keys.len(), 3);
    assert!(!txn.has_mutated());
    assert_eq!(txn.discard(), None);
    assert!(txn.is_finished());
}

#[test]
fn commit_sends_the_context_of_a_mutated_transaction() {
    let txn = mutated_txn();
    assert_eq!(txn.commit(), Ok(Some(touched(8, "k", "p"))));
}

#[test]
fn commit_of_an_unmutated_transaction_needs_no_round_trip() {
    let mut txn = Txn::new(false);
    assert_eq!(txn.merge_context(&touched(8, "k", "p")), Ok(()));
    assert_eq!(txn.commit(), Ok(None));
}

#[test]
fn second_end_is_a_no_op() {
    let mut txn = mutated_txn();
    assert_eq!(txn.commit_or_abort(), Some(touched(8, "k", "p")));
    assert!(txn.is_finished());
    assert_eq!(txn.commit_or_abort(), None);
    assert_eq!(txn.discard(), None);
    assert!(txn.is_finished());
    assert!(txn.context().aborted);
    assert_eq!(txn.commit(), Err(TxnError::Finished));

    let mut txn = mutated_txn();
    assert!(txn.discard().is_some());
    assert_eq!(txn.commit_or_abort(), None);
    assert_eq!(txn.commit(), Err(TxnError::Finished));
}

#[test]
fn failed_mutation_attempt_still_counts_as_mutated() {
    let mut txn = Txn::new(false);
    assert!(txn.mutate(mutation()).is_ok());
    let (_, cleanup) = txn.complete_mutate(false, Err(17u32));
    let mut aborted = TxnContext::new();
    aborted.aborted = true;
    assert_eq!(cleanup, Some(aborted));
    assert!(txn.has_mutated());
    assert!(txn.is_finished());
}
