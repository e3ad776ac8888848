use goobie_mysql::error::{handle_error, should_reconnect, ErrorInfo, Failure, IoKind};

fn io(kind: IoKind) -> Failure {
    Failure::Io { kind, message: String::from("error communicating with database") }
}

fn tls(detail: &str) -> Failure {
    Failure::Tls { detail: String::from(detail), message: format!("tls: {}", detail) }
}

fn db(number: u16) -> Failure {
    Failure::Database {
        number,
        sqlstate: Some(String::from("HY000")),
        message: String::from("server said no"),
    }
}

#[test]
fn transport_failures_that_lose_the_connection_are_transient() {
    for kind in [
        IoKind::ConnectionRefused,
        IoKind::ConnectionReset,
        IoKind::ConnectionAborted,
        IoKind::NotConnected,
        IoKind::TimedOut,
        IoKind::BrokenPipe,
        IoKind::UnexpectedEof,
    ] {
        assert!(should_reconnect(&io(kind)));
    }
}

#[test]
fn other_transport_failures_are_not_transient() {
    assert!(!should_reconnect(&io(IoKind::Other)));
}

#[test]
fn secure_transport_messages_that_lose_the_connection_are_transient() {
    assert!(should_reconnect(&tls("handshake failed")));
    assert!(should_reconnect(&tls("peer: connection closed by remote")));
    assert!(should_reconnect(&tls("read: unexpected EOF")));
    assert!(should_reconnect(&tls("tls handshake failed: bad record")));
}

#[test]
fn other_secure_transport_messages_are_not_transient() {
    assert!(!should_reconnect(&tls("certificate expired")));
    assert!(!should_reconnect(&tls("")));
    assert!(!should_reconnect(&tls("Handshake Failed")));
    assert!(!should_reconnect(&tls("unexpected eof")));
    assert!(!should_reconnect(&tls("handshake faile")));
}

#[test]
fn server_codes_for_a_lost_connection_are_transient() {
    for number in [2002u16, 2003, 2006, 2013, 2055] {
        assert!(should_reconnect(&db(number)));
    }
}

#[test]
fn other_server_codes_are_not_transient() {
    for number in [0u16, 1045, 1062, 1064, 2001, 2004, 2005, 2007, 2012, 2014, 2054, 2056, 65535] {
        assert!(!should_reconnect(&db(number)));
    }
}

#[test]
fn local_and_other_failures_are_not_transient() {
    assert!(!should_reconnect(&Failure::NotConnected));
    assert!(!should_reconnect(&Failure::Other { message: String::from("connection reset") }));
}

#[test]
fn a_server_error_is_shown_with_code_and_sqlstate() {
    let info = handle_error(&Failure::Database {
        number: 1062,
        sqlstate: Some(String::from("23000")),
        message: String::from("Duplicate entry"),
    });
    assert_eq!(
        info,
        ErrorInfo {
            message: String::from("Duplicate entry"),
            code: Some(1062),
            sqlstate: Some(String::from("23000")),
        }
    );
}

#[test]
fn a_server_error_without_sqlstate_is_shown_with_its_code() {
    let info = handle_error(&Failure::Database {
        number: 2006,
        sqlstate: None,
        message: String::from("MySQL server has gone away"),
    });
    assert_eq!(info.code, Some(2006));
    assert_eq!(info.sqlstate, None);
    assert_eq!(info.message, "MySQL server has gone away");
}

#[test]
fn other_failures_are_shown_with_their_message_alone() {
    let info = handle_error(&io(IoKind::ConnectionReset));
    assert_eq!(info.message, "error communicating with database");
    assert_eq!(info.code, None);
    assert_eq!(info.sqlstate, None);

    let info = handle_error(&tls("handshake failed"));
    assert_eq!(info.message, "tls: handshake failed");
    assert_eq!(info.code, None);

    let info = handle_error(&Failure::Other { message: String::from("no rows") });
    assert_eq!(info.message, "no rows");
}

#[test]
fn the_local_failure_has_its_own_message() {
    let info = handle_error(&Failure::NotConnected);
    assert_eq!(info.message, "connection is not open");
    assert_eq!(info.code, None);
    assert_eq!(info.sqlstate, None);
    assert_eq!(Failure::NotConnected.message(), "connection is not open");
}
