//! The database driver: its errors, taken over as failures of this library,
//! and its options for a connection.
//!
//! The driver's values are opaque here. The private functions of this
//! module call the driver, one call each; what those calls return goes by
//! names without a definition, and what is said of the names is believed,
//! *not proved*. What is decided on a failure is decided, and proved, on
//! [`Failure`]; which entries are set on the driver's options is decided in
//! [`crate::options`].

use vstd::prelude::*;
use crate::error::{Failure, IoKind};

verus! {

/// The driver's error, `sqlx::Error`: opaque here.
#[verifier::external_type_specification]
#[verifier::external_body]
pub struct ExDriverError(sqlx::Error);

/// The server's error as the driver holds it,
/// `sqlx::mysql::MySqlDatabaseError`: opaque here.
#[verifier::external_type_specification]
#[verifier::external_body]
pub struct ExServerError(sqlx::mysql::MySqlDatabaseError);

/// The kind of a transport error, `std::io::ErrorKind`: opaque here.
#[verifier::external_type_specification]
#[verifier::external_body]
pub struct ExTransportErrorKind(std::io::ErrorKind);

/// The driver's options for a connection,
/// `sqlx::mysql::MySqlConnectOptions`: opaque here.
#[verifier::external_type_specification]
#[verifier::external_body]
pub struct ExDriverOptions(sqlx::mysql::MySqlConnectOptions);

/// What the driver's options hold of the entries that this library sets.
pub struct DriverEntries {
    pub host: Seq<char>,
    pub port: u16,
    pub username: Seq<char>,
    pub password: Option<Seq<char>>,
    pub database: Option<Seq<char>>,
    pub charset: Seq<char>,
    pub collation: Option<Seq<char>>,
    pub timezone: Option<Seq<char>>,
    pub statement_cache_capacity: usize,
    /// The path of the socket, as text.
    pub socket: Option<Seq<char>>,
}

/// What the driver's options hold: the fields of `MySqlConnectOptions` of
/// the same names.
pub uninterp spec fn driver_entries(options: sqlx::mysql::MySqlConnectOptions) -> DriverEntries;

/// What the driver reads out of `uri` as the address of a server: the
/// entries of the options that `MySqlConnectOptions::from_str` gives for it,
/// or `None` where it gives an error. The driver decides this from the text
/// alone.
pub uninterp spec fn driver_reads_uri(uri: Seq<char>) -> Option<DriverEntries>;

/// The entries of the driver's options where nothing is set.
pub open spec fn default_entries() -> DriverEntries {
    DriverEntries {
        host: "localhost"@,
        port: 3306,
        username: "root"@,
        password: None,
        database: None,
        charset: "utf8mb4"@,
        collation: None,
        timezone: Some("+00:00"@),
        statement_cache_capacity: 100,
        socket: None,
    }
}

/// The driver's options as `MySqlConnectOptions::new` gives them: host
/// `localhost`, port 3306, user `root`, character set `utf8mb4`, time zone
/// `+00:00`, a hundred cached statements, and no password, database,
/// collation or socket.
#[verifier::external_body]
pub(crate) fn default_options() -> (options: sqlx::mysql::MySqlConnectOptions)
    ensures
        driver_entries(options) == default_entries(),
{
    sqlx::mysql::MySqlConnectOptions::new()
}

/// The driver's options that an address in one piece stands for, as the
/// driver's `FromStr` reads it, or the driver's error where it cannot be
/// read. Which addresses can be read, and what is read out of them, is left
/// to the driver, under the name `driver_reads_uri`; nothing is claimed of
/// the error.
#[verifier::external_body]
pub(crate) fn options_from_uri(uri: &str) -> (res: Result<
    sqlx::mysql::MySqlConnectOptions,
    sqlx::Error,
>)
    ensures
        res is Ok <==> driver_reads_uri(uri@) is Some,
        res matches Ok(options) ==> driver_reads_uri(uri@) == Some(driver_entries(options)),
{
    uri.parse::<sqlx::mysql::MySqlConnectOptions>()
}

/// The options with the host set, by `MySqlConnectOptions::host`, and all
/// else as it was.
#[verifier::external_body]
pub(crate) fn with_host(options: sqlx::mysql::MySqlConnectOptions, host: &str) -> (changed:
    sqlx::mysql::MySqlConnectOptions)
    ensures
        driver_entries(changed) == (DriverEntries { host: host@, ..driver_entries(options) }),
{
    options.host(host)
}

/// The options with the port set, by `MySqlConnectOptions::port`, and all
/// else as it was.
#[verifier::external_body]
pub(crate) fn with_port(options: sqlx::mysql::MySqlConnectOptions, port: u16) -> (changed:
    sqlx::mysql::MySqlConnectOptions)
    ensures
        driver_entries(changed) == (DriverEntries { port, ..driver_entries(options) }),
{
    options.port(port)
}

/// The options with the user set, by `MySqlConnectOptions::username`, and
/// all else as it was.
#[verifier::external_body]
pub(crate) fn with_username(options: sqlx::mysql::MySqlConnectOptions, username: &str) -> (changed:
    sqlx::mysql::MySqlConnectOptions)
    ensures
        driver_entries(changed) == (DriverEntries {
            username: username@,
            ..driver_entries(options)
        }),
{
    options.username(username)
}

/// The options with the password set, by `MySqlConnectOptions::password`,
/// and all else as it was.
#[verifier::external_body]
pub(crate) fn with_password(options: sqlx::mysql::MySqlConnectOptions, password: &str) -> (changed:
    sqlx::mysql::MySqlConnectOptions)
    ensures
        driver_entries(changed) == (DriverEntries {
            password: Some(password@),
            ..driver_entries(options)
        }),
{
    options.password(password)
}

/// The options with the database set, by `MySqlConnectOptions::database`,
/// and all else as it was.
#[verifier::external_body]
pub(crate) fn with_database(options: sqlx::mysql::MySqlConnectOptions, database: &str) -> (changed:
    sqlx::mysql::MySqlConnectOptions)
    ensures
        driver_entries(changed) == (DriverEntries {
            database: Some(database@),
            ..driver_entries(options)
        }),
{
    options.database(database)
}

/// The options with the character set set, by
/// `MySqlConnectOptions::charset`, and all else as it was.
#[verifier::external_body]
pub(crate) fn with_charset(options: sqlx::mysql::MySqlConnectOptions, charset: &str) -> (changed:
    sqlx::mysql::MySqlConnectOptions)
    ensures
        driver_entries(changed) == (DriverEntries { charset: charset@, ..driver_entries(options) }),
{
    options.charset(charset)
}

/// The options with the collation set, by `MySqlConnectOptions::collation`,
/// and all else as it was.
#[verifier::external_body]
pub(crate) fn with_collation(options: sqlx::mysql::MySqlConnectOptions, collation: &str) -> (changed:
    sqlx::mysql::MySqlConnectOptions)
    ensures
        driver_entries(changed) == (DriverEntries {
            collation: Some(collation@),
            ..driver_entries(options)
        }),
{
    options.collation(collation)
}

/// The options with the time zone set, by `MySqlConnectOptions::timezone`,
/// and all else as it was.
#[verifier::external_body]
pub(crate) fn with_timezone(options: sqlx::mysql::MySqlConnectOptions, timezone: String) -> (changed:
    sqlx::mysql::MySqlConnectOptions)
    ensures
        driver_entries(changed) == (DriverEntries {
            timezone: Some(timezone@),
            ..driver_entries(options)
        }),
{
    options.timezone(Some(timezone))
}

/// The options with the number of cached statements set, by
/// `MySqlConnectOptions::statement_cache_capacity`, and all else as it was.
#[verifier::external_body]
pub(crate) fn with_statement_cache_capacity(
    options: sqlx::mysql::MySqlConnectOptions,
    capacity: usize,
) -> (changed: sqlx::mysql::MySqlConnectOptions)
    ensures
        driver_entries(changed) == (DriverEntries {
            statement_cache_capacity: capacity,
            ..driver_entries(options)
        }),
{
    options.statement_cache_capacity(capacity)
}

/// The options with the path of the socket set, by
/// `MySqlConnectOptions::socket`, and all else as it was.
#[verifier::external_body]
pub(crate) fn with_socket(options: sqlx::mysql::MySqlConnectOptions, path: &str) -> (changed:
    sqlx::mysql::MySqlConnectOptions)
    ensures
        driver_entries(changed) == (DriverEntries { socket: Some(path@), ..driver_entries(options) }),
{
    options.socket(path)
}

/// The kind of the transport failure inside a driver error: what
/// `std::io::Error::kind` gives for the variant `sqlx::Error::Io`, and
/// `None` for every other variant.
pub uninterp spec fn driver_transport(e: sqlx::Error) -> Option<std::io::ErrorKind>;

/// The kind, as this library knows it, of a transport failure: each of the
/// seven kinds that this library knows by name is the kind of that name,
/// every other is `Other`.
pub uninterp spec fn known_kind(kind: std::io::ErrorKind) -> IoKind;

/// What the secure transport said, for a driver error of the variant
/// `sqlx::Error::Tls`: the text that `to_string` gives of the error inside;
/// `None` for every other variant.
pub uninterp spec fn driver_secure_detail(e: sqlx::Error) -> Option<Seq<char>>;

/// The server's error inside a driver error of the variant
/// `sqlx::Error::Database`, where it is a `MySqlDatabaseError`; `None`
/// otherwise.
pub uninterp spec fn driver_server(e: sqlx::Error) -> Option<sqlx::mysql::MySqlDatabaseError>;

/// The server's error number.
pub uninterp spec fn server_number(e: sqlx::mysql::MySqlDatabaseError) -> u16;

/// The server's SQLSTATE, where it gave one.
pub uninterp spec fn server_sqlstate(e: sqlx::mysql::MySqlDatabaseError) -> Option<Seq<char>>;

/// The server's message.
pub uninterp spec fn server_message(e: sqlx::mysql::MySqlDatabaseError) -> Seq<char>;

/// The kind of the transport failure inside a driver error of the variant
/// `sqlx::Error::Io`, read with `std::io::Error::kind`; `None` for every
/// other variant. The result goes by the name `driver_transport`.
#[verifier::external_body]
fn transport_kind(e: &sqlx::Error) -> (kind: Option<std::io::ErrorKind>)
    ensures
        kind == driver_transport(*e),
{
    match e {
        sqlx::Error::Io(io) => Some(io.kind()),
        _ => None,
    }
}

/// Tells the variants of `std::io::ErrorKind` apart: each of the seven kinds
/// that this library knows by name becomes the kind of that name, every
/// other becomes `Other`. The result goes by the name `known_kind`.
#[verifier::external_body]
fn io_kind(kind: std::io::ErrorKind) -> (known: IoKind)
    ensures
        known == known_kind(kind),
{
    match kind {
        std::io::ErrorKind::ConnectionRefused => IoKind::ConnectionRefused,
        std::io::ErrorKind::ConnectionReset => IoKind::ConnectionReset,
        std::io::ErrorKind::ConnectionAborted => IoKind::ConnectionAborted,
        std::io::ErrorKind::NotConnected => IoKind::NotConnected,
        std::io::ErrorKind::TimedOut => IoKind::TimedOut,
        std::io::ErrorKind::BrokenPipe => IoKind::BrokenPipe,
        std::io::ErrorKind::UnexpectedEof => IoKind::UnexpectedEof,
        _ => IoKind::Other,
    }
}

/// What the secure transport said, for a driver error of the variant
/// `sqlx::Error::Tls`: the text that `to_string` gives of the error inside;
/// `None` for every other variant. The result goes by the name
/// `driver_secure_detail`.
#[verifier::external_body]
fn secure_transport_detail(e: &sqlx::Error) -> (detail: Option<String>)
    ensures
        detail is Some <==> driver_secure_detail(*e) is Some,
        detail matches Some(said) ==> driver_secure_detail(*e) == Some(said@),
{
    match e {
        sqlx::Error::Tls(inner) => Some(inner.to_string()),
        _ => None,
    }
}

/// The server's error inside a driver error of the variant
/// `sqlx::Error::Database`, where `try_downcast_ref` finds it to be a
/// `MySqlDatabaseError`; `None` otherwise. The result goes by the name
/// `driver_server`.
#[verifier::external_body]
fn server_error(e: &sqlx::Error) -> (inner: Option<&sqlx::mysql::MySqlDatabaseError>)
    ensures
        inner is Some <==> driver_server(*e) is Some,
        inner matches Some(found) ==> driver_server(*e) == Some(*found),
{
    match e {
        sqlx::Error::Database(db) => db.try_downcast_ref::<sqlx::mysql::MySqlDatabaseError>(),
        _ => None,
    }
}

/// The server's error number, as `MySqlDatabaseError::number` gives it.
#[verifier::external_body]
fn server_error_number(e: &sqlx::mysql::MySqlDatabaseError) -> (number: u16)
    ensures
        number == server_number(*e),
{
    e.number()
}

/// The server's SQLSTATE, as `MySqlDatabaseError::code` gives it.
#[verifier::external_body]
fn server_error_sqlstate(e: &sqlx::mysql::MySqlDatabaseError) -> (sqlstate: Option<String>)
    ensures
        text_of(sqlstate) == server_sqlstate(*e),
{
    e.code().map(String::from)
}

/// The server's message, as `MySqlDatabaseError::message` gives it.
#[verifier::external_body]
fn server_error_message(e: &sqlx::mysql::MySqlDatabaseError) -> (message: String)
    ensures
        message@ == server_message(*e),
{
    e.message().to_string()
}

/// The text that `to_string` gives of a driver error.
#[verifier::external_body]
fn driver_error_text(e: &sqlx::Error) -> (text: String) {
    e.to_string()
}

/// The text of an entry that may be missing.
pub open spec fn text_of(entry: Option<String>) -> Option<Seq<char>> {
    match entry {
        Some(text) => Some(text@),
        None => None,
    }
}

/// What the server said of an error that it reported.
#[derive(Clone, Debug, PartialEq, Eq)]
pub struct ServerReport {
    pub number: u16,
    pub sqlstate: Option<String>,
    pub message: String,
}

/// What was read of a driver error through the driver's accessors.
#[derive(Clone, Debug, PartialEq, Eq)]
pub struct DriverReading {
    /// The kind of the transport failure, where the error is one.
    pub transport: Option<IoKind>,
    /// What the secure transport said, where the error is one of its.
    pub secure_transport: Option<String>,
    /// What the server said, where the server reported the error.
    pub server: Option<ServerReport>,
    /// The error in words.
    pub text: String,
}

impl DriverReading {
    /// The failure that the reading stands for: a transport failure of the
    /// kind read, with the error's text; else a failure of the secure
    /// transport, with what the transport said and the error's text; else
    /// the server's error, with the server's own number, SQLSTATE and
    /// message; else any other failure, with the error's text.
    pub open spec fn failure(self) -> Failure {
        if self.transport is Some {
            Failure::Io { kind: self.transport->Some_0, message: self.text }
        } else if self.secure_transport is Some {
            Failure::Tls { detail: self.secure_transport->Some_0, message: self.text }
        } else if self.server is Some {
            Failure::Database {
                number: self.server->Some_0.number,
                sqlstate: self.server->Some_0.sqlstate,
                message: self.server->Some_0.message,
            }
        } else {
            Failure::Other { message: self.text }
        }
    }

    /// The failure that the reading stands for.
    pub fn into_failure(self) -> (failure: Failure)
        ensures
            failure == self.failure(),
    {
        let DriverReading { transport, secure_transport, server, text } = self;
        match transport {
            Some(kind) => Failure::Io { kind, message: text },
            None => match secure_transport {
                Some(detail) => Failure::Tls { detail, message: text },
                None => match server {
                    Some(report) => Failure::Database {
                        number: report.number,
                        sqlstate: report.sqlstate,
                        message: report.message,
                    },
                    None => Failure::Other { message: text },
                },
            },
        }
    }
}

/// Whether `failure` is the failure that the driver error `e` stands for: a
/// transport failure of the kind inside; else a failure of the secure
/// transport with what the transport said; else the server's error with the
/// server's own number, SQLSTATE and message; else any other failure.
pub open spec fn stands_for(e: sqlx::Error, failure: Failure) -> bool {
    if driver_transport(e) is Some {
        failure is Io && failure->Io_kind == known_kind(driver_transport(e)->Some_0)
    } else if driver_secure_detail(e) is Some {
        failure is Tls && failure->Tls_detail@ == driver_secure_detail(e)->Some_0
    } else if driver_server(e) is Some {
        let server = driver_server(e)->Some_0;
        &&& failure is Database
        &&& failure->Database_number == server_number(server)
        &&& text_of(failure->Database_sqlstate) == server_sqlstate(server)
        &&& failure->Database_message@ == server_message(server)
    } else {
        failure is Other
    }
}

/// The failure that a driver error stands for: the error is read through
/// the driver's accessors, and the reading is turned into a failure as
/// [`DriverReading::failure`] says. The message of a failure that the
/// server did not report is the error in words, as the driver gives it.
pub fn failure_of(e: &sqlx::Error) -> (failure: Failure)
    ensures
        stands_for(*e, failure),
{
    let transport = match transport_kind(e) {
        Some(kind) => Some(io_kind(kind)),
        None => None,
    };
    let server = match server_error(e) {
        Some(inner) => Some(
            ServerReport {
                number: server_error_number(inner),
                sqlstate: server_error_sqlstate(inner),
                message: server_error_message(inner),
            },
        ),
        None => None,
    };
    let reading = DriverReading {
        transport,
        secure_transport: secure_transport_detail(e),
        server,
        text: driver_error_text(e),
    };
    reading.into_failure()
}

} // verus!
