//! What a connection is opened with.

use vstd::prelude::*;
use vstd::string::*;
use crate::driver::{
    default_entries, default_options, driver_entries, driver_reads_uri, failure_of,
    options_from_uri, text_of, with_charset, with_collation, with_database, with_host,
    with_password, with_port, with_socket, with_statement_cache_capacity, with_timezone,
    with_username, DriverEntries,
};
use crate::error::Failure;

verus! {

/// What the host says of the connection to open. Some entries go by two
/// names; where both are given, the first of the pair counts.
#[derive(Debug, PartialEq, Eq)]
pub struct ConnectFields {
    pub uri: Option<String>,
    pub host: Option<String>,
    pub hostname: Option<String>,
    pub port: Option<u16>,
    pub username: Option<String>,
    pub user: Option<String>,
    pub password: Option<String>,
    pub database: Option<String>,
    pub db: Option<String>,
    pub charset: Option<String>,
    pub collation: Option<String>,
    pub timezone: Option<String>,
    pub statement_cache_capacity: Option<usize>,
    pub socket: Option<String>,
}

/// Why the host's entries do not say where to connect.
#[derive(Clone, Copy, Debug, PartialEq, Eq, Structural)]
pub enum OptionsError {
    MissingPassword,
    MissingDatabase,
}

impl OptionsError {
    /// What is missing, in words.
    pub open spec fn text(self) -> Seq<char> {
        match self {
            OptionsError::MissingPassword => "Password is required!"@,
            OptionsError::MissingDatabase => "Database name is required!"@,
        }
    }

    /// What is missing, in words.
    pub fn message(self) -> (text: String)
        ensures
            text@ == self.text(),
    {
        match self {
            OptionsError::MissingPassword => String::from_str("Password is required!"),
            OptionsError::MissingDatabase => String::from_str("Database name is required!"),
        }
    }
}

/// What a connection is opened with. An entry that is `None` is left to the
/// driver's default.
#[derive(Debug, PartialEq, Eq)]
pub struct Options {
    /// The address of the server in one piece, in place of the five entries
    /// that follow.
    pub uri: Option<String>,
    pub host: Option<String>,
    pub port: Option<u16>,
    pub username: Option<String>,
    pub password: Option<String>,
    pub database: Option<String>,
    pub charset: Option<String>,
    pub collation: Option<String>,
    pub timezone: Option<String>,
    pub statement_cache_capacity: Option<usize>,
    pub socket: Option<String>,
}

/// The first of two entries that is given.
pub open spec fn first_of(a: Option<String>, b: Option<String>) -> Option<String> {
    if a is Some {
        a
    } else {
        b
    }
}

fn pick(a: Option<String>, b: Option<String>) -> (c: Option<String>)
    ensures
        c == first_of(a, b),
{
    match a {
        Some(s) => Some(s),
        None => b,
    }
}

impl ConnectFields {
    /// Why the entries do not say where to connect, if they do not: without
    /// an address in one piece, a password and a database are needed.
    pub open spec fn missing(self) -> Option<OptionsError> {
        if self.uri is Some {
            None
        } else if self.password is None {
            Some(OptionsError::MissingPassword)
        } else if self.database is None && self.db is None {
            Some(OptionsError::MissingDatabase)
        } else {
            None
        }
    }

    /// The options that the entries stand for.
    pub open spec fn options(self) -> Options {
        if self.uri is Some {
            Options {
                uri: self.uri,
                host: None,
                port: None,
                username: None,
                password: None,
                database: None,
                charset: self.charset,
                collation: self.collation,
                timezone: self.timezone,
                statement_cache_capacity: self.statement_cache_capacity,
                socket: self.socket,
            }
        } else {
            Options {
                uri: None,
                host: first_of(self.host, self.hostname),
                port: self.port,
                username: first_of(self.username, self.user),
                password: self.password,
                database: first_of(self.database, self.db),
                charset: self.charset,
                collation: self.collation,
                timezone: self.timezone,
                statement_cache_capacity: self.statement_cache_capacity,
                socket: self.socket,
            }
        }
    }
}

impl Options {
    /// Options that leave everything to the driver's defaults.
    pub fn new() -> (options: Options)
        ensures
            options == (Options {
                uri: None,
                host: None,
                port: None,
                username: None,
                password: None,
                database: None,
                charset: None,
                collation: None,
                timezone: None,
                statement_cache_capacity: None,
                socket: None,
            }),
    {
        Options {
            uri: None,
            host: None,
            port: None,
            username: None,
            password: None,
            database: None,
            charset: None,
            collation: None,
            timezone: None,
            statement_cache_capacity: None,
            socket: None,
        }
    }

    /// The entries of the driver's options once every entry that is given
    /// here is set on top of `base`.
    pub open spec fn over(self, base: DriverEntries) -> DriverEntries {
        DriverEntries {
            host: if self.host is Some {
                self.host->Some_0@
            } else {
                base.host
            },
            port: if self.port is Some {
                self.port->Some_0
            } else {
                base.port
            },
            username: if self.username is Some {
                self.username->Some_0@
            } else {
                base.username
            },
            password: if self.password is Some {
                text_of(self.password)
            } else {
                base.password
            },
            database: if self.database is Some {
                text_of(self.database)
            } else {
                base.database
            },
            charset: if self.charset is Some {
                self.charset->Some_0@
            } else {
                base.charset
            },
            collation: if self.collation is Some {
                text_of(self.collation)
            } else {
                base.collation
            },
            timezone: if self.timezone is Some {
                text_of(self.timezone)
            } else {
                base.timezone
            },
            statement_cache_capacity: if self.statement_cache_capacity is Some {
                self.statement_cache_capacity->Some_0
            } else {
                base.statement_cache_capacity
            },
            socket: if self.socket is Some {
                text_of(self.socket)
            } else {
                base.socket
            },
        }
    }

    /// The entries that the driver starts from: what it reads out of the
    /// address in one piece, or its defaults where no address is given.
    pub open spec fn base(self) -> Option<DriverEntries> {
        match self.uri {
            Some(uri) => driver_reads_uri(uri@),
            None => Some(default_entries()),
        }
    }

    /// The driver's options that these options stand for: the address in
    /// one piece as the driver reads it, or else the driver's defaults, with
    /// every entry that is given set on top. This fails on an address that
    /// the driver cannot read, with the failure that the driver's error
    /// stands for, and on nothing else.
    pub fn connect_options(&self) -> (res: Result<sqlx::mysql::MySqlConnectOptions, Failure>)
        ensures
            res is Ok <==> self.base() is Some,
            res matches Ok(built) ==> driver_entries(built) == self.over(self.base()->Some_0),
            res matches Err(e) ==> e is Io || e is Tls || e is Database || e is Other,
    {
        let mut built = match &self.uri {
            None => default_options(),
            Some(uri) => match options_from_uri(uri.as_str()) {
                Ok(read) => read,
                Err(e) => {
                    return Err(failure_of(&e));
                },
            },
        };
        if let Some(host) = &self.host {
            built = with_host(built, host.as_str());
        }
        if let Some(port) = self.port {
            built = with_port(built, port);
        }
        if let Some(username) = &self.username {
            built = with_username(built, username.as_str());
        }
        if let Some(password) = &self.password {
            built = with_password(built, password.as_str());
        }
        if let Some(database) = &self.database {
            built = with_database(built, database.as_str());
        }
        if let Some(charset) = &self.charset {
            built = with_charset(built, charset.as_str());
        }
        if let Some(collation) = &self.collation {
            built = with_collation(built, collation.as_str());
        }
        if let Some(timezone) = &self.timezone {
            built = with_timezone(built, timezone.clone());
        }
        if let Some(capacity) = self.statement_cache_capacity {
            built = with_statement_cache_capacity(built, capacity);
        }
        if let Some(socket) = &self.socket {
            built = with_socket(built, socket.as_str());
        }
        Ok(built)
    }

    /// The options that the host's entries stand for. Given an address in
    /// one piece, the entries for host, port, user, password and database
    /// are not looked at; without one, a password and a database are needed,
    /// and the password is asked for first.
    pub fn parse(fields: ConnectFields) -> (res: Result<Options, OptionsError>)
        ensures
            res == match fields.missing() {
                Some(e) => Err::<Options, OptionsError>(e),
                None => Ok(fields.options()),
            },
    {
        let ConnectFields {
            uri,
            host,
            hostname,
            port,
            username,
            user,
            password,
            database,
            db,
            charset,
            collation,
            timezone,
            statement_cache_capacity,
            socket,
        } = fields;
        if uri.is_some() {
            return Ok(
                Options {
                    uri,
                    host: None,
                    port: None,
                    username: None,
                    password: None,
                    database: None,
                    charset,
                    collation,
                    timezone,
                    statement_cache_capacity,
                    socket,
                },
            );
        }
        if password.is_none() {
            return Err(OptionsError::MissingPassword);
        }
        let database = pick(database, db);
        if database.is_none() {
            return Err(OptionsError::MissingDatabase);
        }
        Ok(
            Options {
                uri: None,
                host: pick(host, hostname),
                port,
                username: pick(username, user),
                password,
                database,
                charset,
                collation,
                timezone,
                statement_cache_capacity,
                socket,
            },
        )
    }
}

} // verus!
