//! User records kept in the launcher's MySQL database, and how the launcher
//! reaches that database.

use vstd::prelude::*;

use crate::text::joined;

verus! {

/// A point in time in UTC, as `chrono` gives it: whole seconds since the
/// Unix epoch and the nanoseconds past that second (above one billion only
/// during a leap second).
#[derive(Debug, Clone, Copy, PartialEq, Eq)]
pub struct UtcTimestamp {
    pub secs: i64,
    pub nanos: u32,
}

/// A launcher account, tied to a Discord account.
#[derive(Debug, Clone, PartialEq, Eq)]
pub struct User {
    pub id: i64,
    pub discord_id: String,
    pub username: String,
    pub created_at: UtcTimestamp,
}

/// The signed 64-bit id that a row id reported by MySQL becomes when read as
/// `i64`: the same number up to `i64::MAX`, wrapped around above it.
pub open spec fn row_id_as_i64(row_id: u64) -> int {
    if row_id <= i64::MAX {
        row_id as int
    } else {
        row_id - 0x1_0000_0000_0000_0000
    }
}

/// Reinterprets a `u64` row id as an `i64`, two's complement.
fn wrap_row_id(row_id: u64) -> (id: i64)
    ensures
        id == row_id_as_i64(row_id),
{
    if row_id <= 0x7fff_ffff_ffff_ffff {
        row_id as i64
    } else {
        let below: u64 = row_id - 0x8000_0000_0000_0000;
        let shifted: i64 = below as i64;
        shifted - 0x7fff_ffff_ffff_ffff - 1
    }
}

impl User {
    /// The record of a user just inserted: the id that the database assigned
    /// to the row (read as `i64`), the given Discord id and name, and the
    /// given creation time (the caller reads the clock).
    pub fn from_insert(last_insert_id: u64, discord_id: &str, username: &str, created_at: UtcTimestamp) -> (u: User)
        ensures
            u.id == row_id_as_i64(last_insert_id),
            u.discord_id@ == discord_id@,
            u.username@ == username@,
            u.created_at == created_at,
    {
        User {
            id: wrap_row_id(last_insert_id),
            discord_id: discord_id.to_owned(),
            username: username.to_owned(),
            created_at,
        }
    }
}

/// The MySQL port used where none is configured.
pub const DEFAULT_MYSQL_PORT: &'static str = "3306";

/// The port to connect to: the configured one, or the default MySQL port.
pub open spec fn port_or_default(port: Option<Seq<char>>) -> Seq<char> {
    match port {
        Some(p) => p,
        None => DEFAULT_MYSQL_PORT@,
    }
}

/// The connection URL `mysql://{user}:{password}@{host}:{port}/{database}`.
pub open spec fn spec_database_url(
    user: Seq<char>,
    password: Seq<char>,
    host: Seq<char>,
    port: Seq<char>,
    database: Seq<char>,
) -> Seq<char> {
    "mysql://"@ + user + ":"@ + password + "@"@ + host + ":"@ + port + "/"@ + database
}

/// Builds the connection URL of the launcher's database; where no port is
/// configured, the default MySQL port is used.
pub fn database_url(user: &str, password: &str, host: &str, port: Option<String>, database: &str) -> (url: String)
    ensures
        url@ == spec_database_url(
            user@,
            password@,
            host@,
            port_or_default(match port {
                Some(p) => Some(p@),
                None => None,
            }),
            database@,
        ),
        url@ == "mysql://"@ + user@ + ":"@ + password@ + "@"@ + host@ + ":"@ + match port {
            Some(p) => p@,
            None => "3306"@,
        } + "/"@ + database@,
{
    let port_text: String = match port {
        Some(p) => p,
        None => DEFAULT_MYSQL_PORT.to_owned(),
    };
    let mut url = joined("mysql://", user);
    url.append(":");
    url.append(password);
    url.append("@");
    url.append(host);
    url.append(":");
    url.append(port_text.as_str());
    url.append("/");
    url.append(database);
    assert(url@ =~= "mysql://"@ + user@ + ":"@ + password@ + "@"@ + host@ + ":"@ + port_text@ + "/"@ + database@);
    url
}

/// The error given while the database connection is not ready.
pub const DATABASE_NOT_CONNECTED: &'static str = "Base de données non connectée";

/// The database connection, once it is ready; until then, the error that
/// the database is not connected.
pub fn require_connection<T>(db: &Option<T>) -> (r: Result<&T, String>)
    ensures
        db is Some <==> r is Ok,
        r matches Ok(c) ==> db == Some(*c),
        r matches Err(m) ==> m@ == DATABASE_NOT_CONNECTED@,
{
    match db {
        Some(c) => Ok(c),
        None => Err(DATABASE_NOT_CONNECTED.to_owned()),
    }
}

/// The connection URL names the user, the password, the host, the port and
/// the database, in that order, whatever they are (an empty password too):
/// `mysql://{user}:{password}@{host}:{port}/{database}`, on port 3306 where
/// none is configured.
pub proof fn law_database_url_shape(
    user: Seq<char>,
    password: Seq<char>,
    host: Seq<char>,
    port: Seq<char>,
    database: Seq<char>,
)
    ensures
        spec_database_url(user, password, host, port, database)
            == "mysql://"@ + user + ":"@ + password + "@"@ + host + ":"@ + port + "/"@ + database,
        port_or_default(Some(port)) == port,
        port_or_default(None) == "3306"@,
        DATABASE_NOT_CONNECTED@ == "Base de données non connectée"@,
{
}

/// A row id reads as the same `i64` up to `i64::MAX`, and wraps around to a
/// negative id above it.
pub proof fn law_row_id_reading(row_id: u64)
    ensures
        row_id <= 0x7fff_ffff_ffff_ffff ==> row_id_as_i64(row_id) == row_id as int,
        row_id > 0x7fff_ffff_ffff_ffff ==> row_id_as_i64(row_id) == row_id as int - 0x1_0000_0000_0000_0000,
{
}

} // verus!
