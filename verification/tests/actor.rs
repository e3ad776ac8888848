use goobie_mysql::conn::{
    connect, disconnect, following_generation, pause_before, ping, query, Action, Command, Conn, ConnMeta, Event,
    Outcome, Report, Step, MAX_RECONNECT_ATTEMPTS,
};
use goobie_mysql::error::{Failure, IoKind};
use goobie_mysql::query::{Query, QueryResult, QueryType, NO_CONTINUATION};
use goobie_mysql::state::State;

fn select_one(callback: i32) -> Query {
    let mut q = Query::new(String::from("SELECT 1"), QueryType::FetchAll);
    q.callback = callback;
    q
}

fn reset() -> Failure {
    Failure::Io { kind: IoKind::ConnectionReset, message: String::from("connection reset") }
}

fn refused() -> Failure {
    Failure::Io { kind: IoKind::ConnectionRefused, message: String::from("refused") }
}

fn syntax_error() -> Failure {
    Failure::Database {
        number: 1064,
        sqlstate: Some(String::from("42000")),
        message: String::from("You have an error in your SQL syntax"),
    }
}

fn connected() -> Conn {
    let mut conn = Conn::new();
    let step = connect(&mut conn, 1);
    assert_eq!(step, Step { report: None, action: Action::Open { close_existing: false } });
    assert_eq!(conn.state(), State::Connecting);
    let step = conn.step(Event::Opened(Ok(())));
    assert_eq!(
        step,
        Step {
            report: Some(Report { continuation: 1, sync: false, outcome: Outcome::Done }),
            action: Action::Receive,
        }
    );
    conn
}

fn lost(callback: i32) -> Conn {
    let mut conn = connected();
    let step = query(&mut conn, select_one(callback));
    assert_eq!(step, Step { report: None, action: Action::Execute(select_one(callback)) });
    let step = conn.step(Event::QueryFinished(Err(reset())));
    assert_eq!(step, Step { report: None, action: Action::Ping });
    assert_eq!(conn.state(), State::Connected);
    let step = conn.step(Event::Pinged(Err(reset())));
    assert_eq!(
        step,
        Step {
            report: Some(Report { continuation: callback, sync: false, outcome: Outcome::Failed(reset()) }),
            action: Action::Sleep(2),
        }
    );
    conn
}

#[test]
fn a_new_actor_holds_no_connection() {
    let conn = Conn::new();
    assert_eq!(conn.state(), State::NotConnected);
    assert_eq!(conn.id(), 0);
    assert!(conn.is_idle());
    assert!(!conn.is_stopped());
    assert_eq!(conn.meta(), ConnMeta { id: 0, state: State::NotConnected });
}

#[test]
fn connecting_bumps_the_generation_once() {
    let conn = connected();
    assert_eq!(conn.state(), State::Connected);
    assert_eq!(conn.id(), 1);
    assert!(conn.is_idle());
}

#[test]
fn connecting_again_closes_the_old_connection_first() {
    let mut conn = connected();
    let step = connect(&mut conn, 2);
    assert_eq!(step, Step { report: None, action: Action::Open { close_existing: true } });
    assert_eq!(conn.state(), State::Connecting);
    conn.step(Event::Opened(Ok(())));
    assert_eq!(conn.id(), 2);
    assert_eq!(conn.state(), State::Connected);
}

#[test]
fn a_failed_connect_is_reported_and_leaves_the_connection_not_connected() {
    let mut conn = Conn::new();
    connect(&mut conn, 4);
    let step = conn.step(Event::Opened(Err(refused())));
    assert_eq!(
        step,
        Step {
            report: Some(Report { continuation: 4, sync: false, outcome: Outcome::Failed(refused()) }),
            action: Action::Receive,
        }
    );
    assert_eq!(conn.state(), State::NotConnected);
    assert_eq!(conn.id(), 0);
    assert!(conn.is_idle());
}

#[test]
fn query_on_a_connection_that_is_not_connected_fails_at_once() {
    let mut conn = Conn::new();
    let step = query(&mut conn, select_one(9));
    assert_eq!(
        step,
        Step {
            report: Some(Report {
                continuation: 9,
                sync: false,
                outcome: Outcome::Failed(Failure::NotConnected),
            }),
            action: Action::Receive,
        }
    );
    assert_eq!(conn.state(), State::NotConnected);
    assert_eq!(conn.id(), 0);
    assert!(conn.is_idle());
}

#[test]
fn ping_without_a_connection_fails_with_no_latency() {
    let mut conn = Conn::new();
    let step = ping(&mut conn, 3);
    assert_eq!(
        step,
        Step {
            report: Some(Report {
                continuation: 3,
                sync: false,
                outcome: Outcome::Failed(Failure::NotConnected),
            }),
            action: Action::Receive,
        }
    );
    assert_eq!(conn.state(), State::NotConnected);
}

#[test]
fn ping_reports_the_latency() {
    let mut conn = connected();
    let step = ping(&mut conn, 3);
    assert_eq!(step, Step { report: None, action: Action::Ping });
    let step = conn.step(Event::Pinged(Ok(1500)));
    assert_eq!(
        step,
        Step {
            report: Some(Report { continuation: 3, sync: false, outcome: Outcome::Latency(1500) }),
            action: Action::Receive,
        }
    );
    assert_eq!(conn.state(), State::Connected);
}

#[test]
fn a_failed_ping_command_is_reported_without_reconnecting() {
    let mut conn = connected();
    ping(&mut conn, 3);
    let step = conn.step(Event::Pinged(Err(reset())));
    assert_eq!(
        step,
        Step {
            report: Some(Report { continuation: 3, sync: false, outcome: Outcome::Failed(reset()) }),
            action: Action::Receive,
        }
    );
    assert_eq!(conn.state(), State::Connected);
    assert!(conn.is_idle());
}

#[test]
fn a_query_result_goes_to_the_querys_continuation() {
    let mut conn = connected();
    query(&mut conn, select_one(7));
    let result = QueryResult::Execute { rows_affected: 3, last_insert_id: 12 };
    let step = conn.step(Event::QueryFinished(Ok(result.clone())));
    assert_eq!(
        step,
        Step {
            report: Some(Report { continuation: 7, sync: false, outcome: Outcome::Result(result) }),
            action: Action::Receive,
        }
    );
    assert!(conn.is_idle());
}

#[test]
fn nobody_is_told_where_nobody_waits() {
    let mut conn = connected();
    let step = query(&mut conn, select_one(NO_CONTINUATION));
    assert!(matches!(step.action, Action::Execute(_)));
    let step = conn.step(Event::QueryFinished(Ok(QueryResult::Run)));
    assert_eq!(step, Step { report: None, action: Action::Receive });
}

#[test]
fn a_caller_that_waits_is_always_told() {
    let mut waited = select_one(NO_CONTINUATION);
    waited.sync = true;

    let mut conn = Conn::new();
    let step = query(&mut conn, waited.clone());
    assert_eq!(
        step,
        Step {
            report: Some(Report {
                continuation: NO_CONTINUATION,
                sync: true,
                outcome: Outcome::Failed(Failure::NotConnected),
            }),
            action: Action::Receive,
        }
    );

    let mut conn = connected();
    let step = query(&mut conn, waited.clone());
    assert_eq!(step, Step { report: None, action: Action::Execute(waited) });
    let step = conn.step(Event::QueryFinished(Err(reset())));
    assert_eq!(step, Step { report: None, action: Action::Ping });
    let step = conn.step(Event::Pinged(Err(reset())));
    assert_eq!(
        step,
        Step {
            report: Some(Report {
                continuation: NO_CONTINUATION,
                sync: true,
                outcome: Outcome::Failed(reset()),
            }),
            action: Action::Sleep(2),
        }
    );
}

#[test]
fn a_failure_that_is_not_transient_never_reconnects() {
    let mut conn = connected();
    query(&mut conn, select_one(7));
    let step = conn.step(Event::QueryFinished(Err(syntax_error())));
    assert_eq!(
        step,
        Step {
            report: Some(Report { continuation: 7, sync: false, outcome: Outcome::Failed(syntax_error()) }),
            action: Action::Receive,
        }
    );
    assert_eq!(conn.state(), State::Connected);
    assert_eq!(conn.id(), 1);
    assert!(conn.is_idle());
}

#[test]
fn a_transient_failure_with_a_good_ping_keeps_the_connection() {
    let mut conn = connected();
    query(&mut conn, select_one(7));
    let step = conn.step(Event::QueryFinished(Err(reset())));
    assert_eq!(step, Step { report: None, action: Action::Ping });
    let step = conn.step(Event::Pinged(Ok(200)));
    assert_eq!(
        step,
        Step {
            report: Some(Report { continuation: 7, sync: false, outcome: Outcome::Failed(reset()) }),
            action: Action::Receive,
        }
    );
    assert_eq!(conn.state(), State::Connected);
    assert_eq!(conn.id(), 1);
}

#[test]
fn a_lost_connection_is_reopened_on_the_third_attempt() {
    let mut conn = lost(7);
    assert_eq!(conn.state(), State::NotConnected);
    let before = conn.id();

    let step = conn.step(Event::Slept);
    assert_eq!(step, Step { report: None, action: Action::Open { close_existing: true } });
    assert_eq!(conn.state(), State::Connecting);
    let step = conn.step(Event::Opened(Err(refused())));
    assert_eq!(step, Step { report: None, action: Action::Sleep(3) });
    assert_eq!(conn.state(), State::NotConnected);

    let step = conn.step(Event::Slept);
    assert_eq!(step, Step { report: None, action: Action::Open { close_existing: false } });
    let step = conn.step(Event::Opened(Err(refused())));
    assert_eq!(step, Step { report: None, action: Action::Sleep(4) });

    let step = conn.step(Event::Slept);
    assert_eq!(step, Step { report: None, action: Action::Open { close_existing: false } });
    let step = conn.step(Event::Opened(Ok(())));
    assert_eq!(step, Step { report: None, action: Action::Receive });

    assert_eq!(conn.id(), before + 1);
    assert_eq!(conn.state(), State::Connected);
    assert!(conn.is_idle());
}

#[test]
fn the_actor_gives_up_after_seven_attempts() {
    let mut conn = lost(7);
    let before = conn.id();
    let mut pauses: Vec<u64> = vec![2];
    let mut attempts = 0;
    loop {
        let step = conn.step(Event::Slept);
        assert!(matches!(step.action, Action::Open { .. }));
        attempts += 1;
        let step = conn.step(Event::Opened(Err(refused())));
        assert_eq!(step.report, None);
        match step.action {
            Action::Sleep(seconds) => pauses.push(seconds),
            Action::Receive => break,
            other => panic!("unexpected action {:?}", other),
        }
    }
    assert_eq!(attempts, 7);
    assert_eq!(pauses, vec![2, 3, 4, 5, 6, 7, 8]);
    assert_eq!(conn.id(), before);
    assert_eq!(conn.state(), State::NotConnected);
    assert!(conn.is_idle());

    let step = query(&mut conn, select_one(8));
    assert_eq!(
        step.report,
        Some(Report { continuation: 8, sync: false, outcome: Outcome::Failed(Failure::NotConnected) })
    );
    let step = connect(&mut conn, 1);
    assert_eq!(step.action, Action::Open { close_existing: false });
}

#[test]
fn the_pauses_grow_by_one_second() {
    assert_eq!(MAX_RECONNECT_ATTEMPTS, 7);
    let pauses: Vec<u64> = (1..=MAX_RECONNECT_ATTEMPTS).map(pause_before).collect();
    assert_eq!(pauses, vec![2, 3, 4, 5, 6, 7, 8]);
}

#[test]
fn disconnect_closes_at_once_for_readers() {
    let mut conn = connected();
    let step = disconnect(&mut conn, 5);
    assert_eq!(step, Step { report: None, action: Action::Close });
    assert_eq!(conn.state(), State::Disconnected);
    let step = conn.step(Event::Closed(Err(reset())));
    assert_eq!(
        step,
        Step {
            report: Some(Report { continuation: 5, sync: false, outcome: Outcome::Failed(reset()) }),
            action: Action::Receive,
        }
    );
    assert_eq!(conn.state(), State::Disconnected);
    assert_eq!(conn.id(), 1);
}

#[test]
fn disconnect_without_a_connection_is_done_at_once() {
    let mut conn = Conn::new();
    let step = disconnect(&mut conn, 5);
    assert_eq!(
        step,
        Step {
            report: Some(Report { continuation: 5, sync: false, outcome: Outcome::Done }),
            action: Action::Receive,
        }
    );
    assert_eq!(conn.state(), State::Disconnected);
    let step = query(&mut conn, select_one(6));
    assert_eq!(
        step.report,
        Some(Report { continuation: 6, sync: false, outcome: Outcome::Failed(Failure::NotConnected) })
    );
    assert_eq!(conn.state(), State::Disconnected);
}

#[test]
fn a_command_is_rejected_while_another_is_under_way() {
    let mut conn = connected();
    query(&mut conn, select_one(7));
    let before = conn.meta();
    let step = ping(&mut conn, 3);
    assert_eq!(step, Step { report: None, action: Action::Rejected });
    let step = conn.step(Event::Command(Command::Close));
    assert_eq!(step, Step { report: None, action: Action::Rejected });
    assert_eq!(conn.meta(), before);
    assert!(!conn.is_idle());
    let step = conn.step(Event::QueryFinished(Ok(QueryResult::Run)));
    assert_eq!(step.action, Action::Receive);
}

#[test]
fn an_event_that_was_not_asked_for_is_rejected() {
    let mut conn = connected();
    for event in [
        Event::Opened(Ok(())),
        Event::Closed(Ok(())),
        Event::QueryFinished(Ok(QueryResult::Run)),
        Event::Pinged(Ok(1)),
        Event::Slept,
    ] {
        let step = conn.step(event);
        assert_eq!(step, Step { report: None, action: Action::Rejected });
        assert_eq!(conn.meta(), ConnMeta { id: 1, state: State::Connected });
        assert!(conn.is_idle());
    }
}

#[test]
fn close_ends_the_actor() {
    let mut conn = connected();
    let step = conn.step(Event::Command(Command::Close));
    assert_eq!(step, Step { report: None, action: Action::Stop });
    assert!(conn.is_stopped());
    let step = connect(&mut conn, 1);
    assert_eq!(step, Step { report: None, action: Action::Rejected });
    assert!(conn.is_stopped());
}

#[test]
fn set_state_keeps_the_generation() {
    let mut meta = ConnMeta { id: 4, state: State::Connected };
    meta.set_state(State::Disconnected);
    assert_eq!(meta, ConnMeta { id: 4, state: State::Disconnected });
}

#[test]
fn the_generation_wraps_at_the_limit_of_its_counter() {
    assert_eq!(following_generation(0), 1);
    assert_eq!(following_generation(41), 42);
    assert_eq!(following_generation(u64::MAX - 1), u64::MAX);
    assert_eq!(following_generation(u64::MAX), 0);
}
