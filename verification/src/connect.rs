//! Connection-string resolution for registered data sources.
//!
//! A data source carries a connection configuration JSON object with
//! `host`, an optional `port` defaulting per dialect, `database`,
//! `username` and `password`. The task-execution path tolerates a missing
//! password and reports missing fields with the field name in quotes; the
//! query and upload paths require the password and report the bare field
//! name, exactly as their callers expect.

use vstd::prelude::*;

use crate::errors::ExecutorError;
use crate::json::{lookup_str, lookup_u64, JsonValue};
use crate::spec_digits;
use crate::u64_to_string;

verus! {

/// The database dialects an external data source may declare.
#[derive(Clone, Copy, PartialEq, Eq, Structural, Debug)]
pub enum DbKind {
    MySql,
    Postgres,
}

/// The dialect for a declared `db_type`, accepting the two spellings each
/// dialect registers under.
pub open spec fn spec_db_kind(s: Seq<char>) -> Option<DbKind> {
    if s == "mysql"@ || s == "MySQL"@ {
        Option::Some(DbKind::MySql)
    } else if s == "postgresql"@ || s == "PostgreSQL"@ {
        Option::Some(DbKind::Postgres)
    } else {
        Option::None
    }
}

/// Recognize a declared database type.
pub fn db_kind_of(s: &str) -> (r: Option<DbKind>)
    ensures
        r == spec_db_kind(s@),
{
    if crate::text::str_eq(s, "mysql") || crate::text::str_eq(s, "MySQL") {
        Some(DbKind::MySql)
    } else if crate::text::str_eq(s, "postgresql") || crate::text::str_eq(s, "PostgreSQL") {
        Some(DbKind::Postgres)
    } else {
        None
    }
}

/// A connection string: prefix, then `user:pass@host:port/database`.
pub open spec fn spec_conn_string(
    prefix: Seq<char>,
    user: Seq<char>,
    pass: Seq<char>,
    host: Seq<char>,
    port: u64,
    db: Seq<char>,
) -> Seq<char> {
    prefix + user + ":"@ + pass + "@"@ + host + ":"@ + spec_digits(port as nat) + "/"@ + db
}

/// The string under a key, or empty where there is none.
pub open spec fn str_or_empty(o: Option<Seq<char>>) -> Seq<char> {
    match o {
        Option::Some(s) => s,
        Option::None => Seq::empty(),
    }
}

/// The configured port, or the dialect default.
pub open spec fn port_or(config: JsonValue, default: u64) -> u64 {
    match lookup_u64(config, "port"@) {
        Option::Some(p) => p,
        Option::None => default,
    }
}

/// Whether a required field of the task-execution path is missing: that
/// path needs `host`, `database` and `username` and tolerates a missing
/// password.
pub open spec fn exec_conn_missing(config: JsonValue) -> bool {
    lookup_str(config, "host"@) is None || lookup_str(config, "database"@) is None
        || lookup_str(config, "username"@) is None
}

/// The task-execution path's message for the first missing field, the
/// field name in quotes.
pub open spec fn exec_conn_msg(config: JsonValue) -> Seq<char> {
    if lookup_str(config, "host"@) is None {
        "Missing 'host' in connection config"@
    } else if lookup_str(config, "database"@) is None {
        "Missing 'database' in connection config"@
    } else {
        "Missing 'username' in connection config"@
    }
}

/// The MySQL connection string of a configuration complete for the
/// task-execution path, or `None` where a required field is missing.
pub open spec fn spec_mysql_conn(config: JsonValue) -> Option<Seq<char>> {
    if exec_conn_missing(config) {
        Option::None
    } else {
        Option::Some(
            spec_conn_string(
                "mysql://"@,
                str_or_empty(lookup_str(config, "username"@)),
                str_or_empty(lookup_str(config, "password"@)),
                str_or_empty(lookup_str(config, "host"@)),
                port_or(config, 3306),
                str_or_empty(lookup_str(config, "database"@)),
            ),
        )
    }
}

/// The PostgreSQL connection string of a configuration complete for the
/// task-execution path, or `None` where a required field is missing.
pub open spec fn spec_postgresql_conn(config: JsonValue) -> Option<Seq<char>> {
    if exec_conn_missing(config) {
        Option::None
    } else {
        Option::Some(
            spec_conn_string(
                "postgresql://"@,
                str_or_empty(lookup_str(config, "username"@)),
                str_or_empty(lookup_str(config, "password"@)),
                str_or_empty(lookup_str(config, "host"@)),
                port_or(config, 5432),
                str_or_empty(lookup_str(config, "database"@)),
            ),
        )
    }
}

/// The connection string the matched dialect's builder produces, or
/// `None` where a required field is missing.
pub open spec fn spec_conn_for(kind: DbKind, config: JsonValue) -> Option<Seq<char>> {
    match kind {
        DbKind::MySql => spec_mysql_conn(config),
        DbKind::Postgres => spec_postgresql_conn(config),
    }
}

/// Whether a required field of the query and upload paths is missing:
/// those paths need an object with `host`, `database`, `username` and
/// `password`.
pub open spec fn query_conn_missing(config: JsonValue) -> bool {
    !(config matches JsonValue::Object(_)) || lookup_str(config, "host"@) is None
        || lookup_str(config, "database"@) is None || lookup_str(config, "username"@)
        is None || lookup_str(config, "password"@) is None
}

/// The query and upload paths' message for the first failing check, the
/// field name bare.
pub open spec fn query_conn_msg(config: JsonValue) -> Seq<char> {
    if !(config matches JsonValue::Object(_)) {
        "Invalid connection config"@
    } else if lookup_str(config, "host"@) is None {
        "Missing host in connection config"@
    } else if lookup_str(config, "database"@) is None {
        "Missing database in connection config"@
    } else if lookup_str(config, "username"@) is None {
        "Missing username in connection config"@
    } else {
        "Missing password in connection config"@
    }
}

/// The `postgres://` connection string of a configuration complete for
/// the query and upload paths, or `None` where a required field is
/// missing.
pub open spec fn spec_postgres_conn(config: JsonValue) -> Option<Seq<char>> {
    if query_conn_missing(config) {
        Option::None
    } else {
        Option::Some(
            spec_conn_string(
                "postgres://"@,
                str_or_empty(lookup_str(config, "username"@)),
                str_or_empty(lookup_str(config, "password"@)),
                str_or_empty(lookup_str(config, "host"@)),
                port_or(config, 5432),
                str_or_empty(lookup_str(config, "database"@)),
            ),
        )
    }
}

/// Assemble a connection string from its parts.
fn assemble(prefix: &str, user: &str, pass: &str, host: &str, port: u64, db: &str) -> (r:
    String)
    ensures
        r@ == spec_conn_string(prefix@, user@, pass@, host@, port, db@),
{
    String::from_str(prefix).concat(user).concat(":").concat(pass).concat("@").concat(
        host,
    ).concat(":").concat(u64_to_string(port).as_str()).concat("/").concat(db)
}

/// Build a MySQL connection string for the task-execution path; the
/// password defaults to empty, the port to 3306.
pub fn mysql_connection_string(config: &JsonValue) -> (r: Result<String, ExecutorError>)
    ensures
        match r {
            Ok(s) => spec_mysql_conn(*config) == Option::Some(s@),
            Err(e) => {
                &&& exec_conn_missing(*config)
                &&& e matches ExecutorError::ExecutionFailed(m) && m@ == exec_conn_msg(
                    *config,
                )
            },
        },
{
    let host = match config.get_str("host") {
        Some(h) => h,
        None => {
            return Err(ExecutorError::ExecutionFailed(String::from_str(
                "Missing 'host' in connection config",
            )));
        },
    };
    let port: u64 = match config.get_u64("port") {
        Some(p) => p,
        None => 3306,
    };
    let db = match config.get_str("database") {
        Some(d) => d,
        None => {
            return Err(ExecutorError::ExecutionFailed(String::from_str(
                "Missing 'database' in connection config",
            )));
        },
    };
    let user = match config.get_str("username") {
        Some(u) => u,
        None => {
            return Err(ExecutorError::ExecutionFailed(String::from_str(
                "Missing 'username' in connection config",
            )));
        },
    };
    let pass = match config.get_str("password") {
        Some(p) => p,
        None => "",
    };
    proof {
        reveal_strlit("");
    }
    Ok(assemble("mysql://", user, pass, host, port, db))
}

/// Build a PostgreSQL connection string for the task-execution path; the
/// password defaults to empty, the port to 5432.
pub fn postgresql_connection_string(config: &JsonValue) -> (r: Result<String, ExecutorError>)
    ensures
        match r {
            Ok(s) => spec_postgresql_conn(*config) == Option::Some(s@),
            Err(e) => {
                &&& exec_conn_missing(*config)
                &&& e matches ExecutorError::ExecutionFailed(m) && m@ == exec_conn_msg(
                    *config,
                )
            },
        },
{
    let host = match config.get_str("host") {
        Some(h) => h,
        None => {
            return Err(ExecutorError::ExecutionFailed(String::from_str(
                "Missing 'host' in connection config",
            )));
        },
    };
    let port: u64 = match config.get_u64("port") {
        Some(p) => p,
        None => 5432,
    };
    let db = match config.get_str("database") {
        Some(d) => d,
        None => {
            return Err(ExecutorError::ExecutionFailed(String::from_str(
                "Missing 'database' in connection config",
            )));
        },
    };
    let user = match config.get_str("username") {
        Some(u) => u,
        None => {
            return Err(ExecutorError::ExecutionFailed(String::from_str(
                "Missing 'username' in connection config",
            )));
        },
    };
    let pass = match config.get_str("password") {
        Some(p) => p,
        None => "",
    };
    proof {
        reveal_strlit("");
    }
    Ok(assemble("postgresql://", user, pass, host, port, db))
}

/// Build the `postgres://` connection string of the query and upload
/// paths. Every field but the port is required; the error is the message
/// the caller wraps into its own error kind.
pub fn postgres_connection_string(config: &JsonValue) -> (r: Result<String, String>)
    ensures
        match r {
            Ok(s) => spec_postgres_conn(*config) == Option::Some(s@),
            Err(m) => query_conn_missing(*config) && m@ == query_conn_msg(*config),
        },
{
    if !config.is_object() {
        return Err(String::from_str("Invalid connection config"));
    }
    let host = match config.get_str("host") {
        Some(h) => h,
        None => {
            return Err(String::from_str("Missing host in connection config"));
        },
    };
    let port: u64 = match config.get_u64("port") {
        Some(p) => p,
        None => 5432,
    };
    let db = match config.get_str("database") {
        Some(d) => d,
        None => {
            return Err(String::from_str("Missing database in connection config"));
        },
    };
    let user = match config.get_str("username") {
        Some(u) => u,
        None => {
            return Err(String::from_str("Missing username in connection config"));
        },
    };
    let pass = match config.get_str("password") {
        Some(p) => p,
        None => {
            return Err(String::from_str("Missing password in connection config"));
        },
    };
    Ok(assemble("postgres://", user, pass, host, port, db))
}

} // verus!
