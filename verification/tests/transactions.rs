use goobie_mysql::error::{Failure, IoKind};
use goobie_mysql::query::{Query, QueryType, NO_CONTINUATION};
use goobie_mysql::transaction::{
    begin_statement, restore_statement, BeginOutcome, Finalization, Finish, LeaseError,
    LeasedQuery, Marker, Resumed, Route, Transaction,
};

fn lease(owner: i32, generation: u64) -> Transaction {
    Transaction::new(owner, generation, BeginOutcome::Started).unwrap()
}

fn insert() -> Query {
    Query::new(String::from("INSERT INTO t VALUES (1)"), QueryType::Execute)
}

fn select() -> Query {
    Query::new(String::from("SELECT * FROM t"), QueryType::FetchAll)
}

#[test]
fn the_statements_of_a_transaction() {
    assert_eq!(begin_statement(), "SET autocommit = 0; BEGIN;");
    assert_eq!(Finish::Commit.statement(), "COMMIT;");
    assert_eq!(Finish::Rollback.statement(), "ROLLBACK;");
    assert_eq!(restore_statement(), "SET autocommit = 1;");
}

#[test]
fn a_lease_is_given_only_where_the_transaction_has_begun() {
    let t = lease(11, 3);
    assert!(t.is_open());
    assert!(!t.is_sync());
    assert_eq!(t.owner(), 11);
    assert_eq!(t.generation(), 3);

    assert_eq!(
        Transaction::new(11, 3, BeginOutcome::NoConnection),
        Err(Failure::Closed)
    );
    assert_eq!(Failure::Closed.message(), "connection is closed");
    let failed = Failure::Io { kind: IoKind::BrokenPipe, message: String::from("broken pipe") };
    assert_eq!(
        Transaction::new(11, 3, BeginOutcome::Failed(failed.clone())),
        Err(failed)
    );
}

#[test]
fn insert_then_select_then_commit() {
    let mut t = lease(11, 3);
    assert_eq!(
        t.query(11, 3, insert()),
        Ok(LeasedQuery { query: insert(), route: Route::Resume { continuation: 11 } })
    );
    assert_eq!(
        t.query(11, 3, select()),
        Ok(LeasedQuery { query: select(), route: Route::Resume { continuation: 11 } })
    );
    assert_eq!(t.begin_finalize(11), Ok(Some(Route::Resume { continuation: 11 })));
    assert!(!t.is_open());
    let todo = t.finalize(Finish::Commit, 3);
    assert_eq!(
        todo,
        Some(Finalization { action: Finish::Commit, stale: false, forgotten: false })
    );
    assert_eq!(todo.unwrap().action.statement(), "COMMIT;");
    assert!(!t.is_open());
    assert_eq!(t.check_holder(11), Err(LeaseError::Closed));
}

#[test]
fn a_holder_that_waits_gets_its_results_itself() {
    let mut t = lease(11, 3);
    assert_eq!(t.route(), Route::Resume { continuation: 11 });
    t.set_sync(true);
    assert!(t.is_sync());
    assert_eq!(t.route(), Route::Direct);
    assert_eq!(
        t.query(11, 3, select()),
        Ok(LeasedQuery { query: select(), route: Route::Direct })
    );
    assert_eq!(t.begin_finalize(11), Ok(Some(Route::Direct)));
}

#[test]
fn a_query_from_another_continuation_is_a_lease_violation() {
    let t = lease(11, 3);
    assert_eq!(t.query(12, 3, select()), Err(LeaseError::WrongContinuation));
    assert_eq!(t.check_access(12, 3), Err(LeaseError::WrongContinuation));
    assert_eq!(t.check_holder(12), Err(LeaseError::WrongContinuation));
    assert_eq!(t.check_access(NO_CONTINUATION, 3), Err(LeaseError::WrongContinuation));
    assert!(t.is_open());
    assert_eq!(t.check_access(11, 3), Ok(()));
}

#[test]
fn nobody_holds_a_lease_given_to_nobody() {
    let t = lease(NO_CONTINUATION, 3);
    assert_eq!(t.check_holder(NO_CONTINUATION), Err(LeaseError::WrongContinuation));
}

#[test]
fn a_lease_is_stale_after_the_generation_has_grown() {
    let t = lease(11, 3);
    assert_eq!(t.check_access(11, 4), Err(LeaseError::Stale));
    assert_eq!(t.query(11, 4, select()), Err(LeaseError::Stale));
    assert_eq!(t.query(11, 9, select()), Err(LeaseError::Stale));
    assert_eq!(t.check_access(12, 4), Err(LeaseError::WrongContinuation));
    assert_eq!(t.check_holder(11), Ok(()));
}

#[test]
fn ending_a_stale_transaction_releases_it_and_says_so() {
    let mut t = lease(11, 3);
    assert_eq!(t.begin_finalize(11), Ok(Some(Route::Resume { continuation: 11 })));
    assert_eq!(
        t.finalize(Finish::Commit, 4),
        Some(Finalization { action: Finish::Commit, stale: true, forgotten: false })
    );
}

#[test]
fn no_query_is_taken_once_ending_has_begun() {
    let mut t = lease(11, 3);
    assert_eq!(t.begin_finalize(11), Ok(Some(Route::Resume { continuation: 11 })));
    assert_eq!(t.query(11, 3, select()), Err(LeaseError::Closed));
    assert_eq!(t.begin_finalize(11), Err(LeaseError::Closed));
}

#[test]
fn ending_is_refused_to_another_continuation() {
    let mut t = lease(11, 3);
    assert_eq!(t.begin_finalize(12), Err(LeaseError::WrongContinuation));
    assert!(t.is_open());
    assert_eq!(t.query(11, 3, select()).map(|q| q.route), Ok(Route::Resume { continuation: 11 }));
}

#[test]
fn finalize_twice_does_nothing_the_second_time() {
    let mut t = lease(11, 3);
    assert_eq!(
        t.finalize(Finish::Rollback, 3),
        Some(Finalization { action: Finish::Rollback, stale: false, forgotten: false })
    );
    assert_eq!(t.finalize(Finish::Rollback, 3), None);
    assert_eq!(t.finalize(Finish::Commit, 3), None);
    assert_eq!(t.abandon(3), None);
    assert!(!t.is_open());
}

#[test]
fn a_discarded_transaction_is_rolled_back_once() {
    let mut t = lease(11, 3);
    let todo = t.abandon(3);
    assert_eq!(
        todo,
        Some(Finalization { action: Finish::Rollback, stale: false, forgotten: true })
    );
    assert_eq!(todo.unwrap().action.statement(), "ROLLBACK;");
    assert_eq!(t.abandon(3), None);
    assert_eq!(t.finalize(Finish::Rollback, 3), None);
    assert!(!t.is_open());
}

#[test]
fn a_transaction_discarded_while_ending_owes_no_diagnostic() {
    let mut t = lease(11, 3);
    assert!(t.begin_finalize(11).is_ok());
    assert_eq!(
        t.abandon(3),
        Some(Finalization { action: Finish::Rollback, stale: false, forgotten: false })
    );
}

#[test]
fn a_holder_that_waits_again_keeps_its_lease() {
    let mut t = lease(11, 3);
    assert_eq!(t.resume(Resumed::Yielded, 3), None);
    assert!(t.is_open());
}

#[test]
fn a_holder_that_ends_without_finalizing_is_rolled_back_with_a_diagnostic() {
    let mut t = lease(11, 3);
    assert_eq!(
        t.resume(Resumed::Finished, 3),
        Some(Finalization { action: Finish::Rollback, stale: false, forgotten: true })
    );
    assert_eq!(t.resume(Resumed::Finished, 3), None);
}

#[test]
fn a_holder_that_fails_is_rolled_back_without_a_diagnostic() {
    let mut t = lease(11, 3);
    assert_eq!(
        t.resume(Resumed::Failed, 5),
        Some(Finalization { action: Finish::Rollback, stale: true, forgotten: false })
    );
    assert_eq!(t.resume(Resumed::Failed, 5), None);
}

#[test]
fn set_open_reopens_and_closes() {
    let mut t = lease(11, 3);
    t.set_open(false);
    assert!(!t.is_open());
    assert_eq!(t.finalize(Finish::Commit, 3), None);
    t.set_open(true);
    assert!(t.is_open());
}

#[test]
fn a_waiting_query_fails_fast_while_a_transaction_holds_the_connection() {
    let held = Marker::begin(11);
    assert_eq!(held, Marker::Held { owner: 11 });
    assert_eq!(held.check_query(true), Err(LeaseError::Deadlock));
    assert_eq!(held.check_query(false), Ok(()));
    assert_eq!(Marker::Free.check_query(true), Ok(()));
    assert_eq!(Marker::Free.check_query(false), Ok(()));
    assert_eq!(Marker::Invalid.check_query(true), Ok(()));
}

#[test]
fn the_marker_is_cleared_when_the_transaction_ends() {
    let mut t = lease(11, 3);
    let done = t.finalize(Finish::Commit, 3).unwrap();
    assert_eq!(Marker::after(done), Marker::Free);
    assert_eq!(Marker::after(done).check_query(true), Ok(()));

    let mut t = lease(11, 3);
    let done = t.finalize(Finish::Rollback, 4).unwrap();
    assert_eq!(Marker::after(done), Marker::Invalid);
}

#[test]
fn commit_on_a_closed_transaction_is_no_error_for_its_holder() {
    let mut t = lease(11, 3);
    assert_eq!(t.begin_finalize(11), Ok(Some(Route::Resume { continuation: 11 })));
    assert!(t.finalize(Finish::Commit, 3).is_some());

    assert_eq!(t.begin_finalize(11), Ok(None));
    assert_eq!(t.finalize(Finish::Commit, 3), None);
    assert_eq!(t.begin_finalize(11), Ok(None));
    assert_eq!(t.finalize(Finish::Rollback, 3), None);
    assert!(!t.is_open());

    assert_eq!(t.begin_finalize(12), Err(LeaseError::Closed));
    assert_eq!(t.begin_finalize(NO_CONTINUATION), Err(LeaseError::Closed));
    assert_eq!(t.query(11, 3, select()), Err(LeaseError::Closed));
}

#[test]
fn ending_a_rolled_back_transaction_again_is_no_error() {
    let mut t = lease(11, 3);
    assert!(t.abandon(3).is_some());
    assert_eq!(t.begin_finalize(11), Ok(None));
}

#[test]
fn the_statements_that_end_a_transaction() {
    let commit = Finalization { action: Finish::Commit, stale: false, forgotten: false };
    assert_eq!(commit.statements(), vec!["COMMIT;", "SET autocommit = 1;"]);
    let rollback = Finalization { action: Finish::Rollback, stale: true, forgotten: true };
    assert_eq!(rollback.statements(), vec!["ROLLBACK;", "SET autocommit = 1;"]);
}

#[test]
fn the_outcome_of_ending_is_that_of_the_first_statement() {
    let todo = Finalization { action: Finish::Rollback, stale: false, forgotten: false };
    let failed = Failure::Database {
        number: 1180,
        sqlstate: None,
        message: String::from("error during ROLLBACK"),
    };
    let restore_failed = Failure::Other { message: String::from("restore failed") };
    assert_eq!(todo.outcome(Ok(()), Ok(())), Ok(()));
    assert_eq!(todo.outcome(Ok(()), Err(restore_failed.clone())), Ok(()));
    assert_eq!(todo.outcome(Err(failed.clone()), Ok(())), Err(failed.clone()));
    assert_eq!(todo.outcome(Err(failed.clone()), Err(restore_failed)), Err(failed));
}

#[test]
fn the_marker_after_an_attempt_to_begin() {
    assert_eq!(Marker::after_begin(11, true), Marker::Held { owner: 11 });
    assert_eq!(Marker::after_begin(11, false), Marker::Free);
}

#[test]
fn lease_errors_in_words() {
    assert_eq!(LeaseError::Closed.message(), "transaction is closed");
    assert_eq!(
        LeaseError::WrongContinuation.message(),
        "transaction can only be accessed from the coroutine it was created in"
    );
    assert_eq!(
        LeaseError::Stale.message(),
        "transaction is lost: the connection was opened anew"
    );
    assert_eq!(LeaseError::Deadlock.message(), "connection is held by a transaction");
}
