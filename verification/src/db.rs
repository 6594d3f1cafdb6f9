//! Database connection management utilities.
//!
//! A small connection-pool model: a manager hands out simulated connections,
//! each identified by a fresh random id and stamped with the wall-clock time
//! it was last used. Queries and record operations validate their inputs and
//! return simulated results. Wall-clock time and random ids come from
//! outside crates through trusted wrappers; everything decided here is
//! verified.

use vstd::prelude::*;
use vstd::string::StringExecFns;

verus! {

/// Database connection configuration.
#[derive(Debug, Clone)]
pub struct DatabaseConfig {
    pub host: String,
    pub port: u16,
    pub username: String,
    pub password: String,
    pub database: String,
}

/// Error type for database operations.
#[derive(Debug)]
pub enum DatabaseError {
    ConnectionFailed(String),
    QueryFailed(String),
    InvalidData(String),
    NotFound(String),
}

/// A database record: an id, key/value data in insertion order, and the
/// creation and update times as Unix timestamps.
#[derive(Debug, Clone)]
pub struct Record {
    pub id: u64,
    pub data: Vec<(String, String)>,
    pub created_at: i64,
    pub updated_at: i64,
}

/// The decimal digit character for `d`.
pub open spec fn digit_char(d: nat) -> char {
    if d == 0 {
        '0'
    } else if d == 1 {
        '1'
    } else if d == 2 {
        '2'
    } else if d == 3 {
        '3'
    } else if d == 4 {
        '4'
    } else if d == 5 {
        '5'
    } else if d == 6 {
        '6'
    } else if d == 7 {
        '7'
    } else if d == 8 {
        '8'
    } else {
        '9'
    }
}

/// The decimal representation of `n`, most significant digit first.
pub open spec fn dec_str(n: nat) -> Seq<char>
    decreases n,
{
    if n < 10 {
        seq![digit_char(n)]
    } else {
        dec_str(n / 10) + seq![digit_char(n % 10)]
    }
}

/// The one-character text of a digit value below ten.
fn digit_str(d: usize) -> (r: &'static str)
    requires
        d < 10,
    ensures
        r@ == seq![digit_char(d as nat)],
{
    if d == 0 {
        proof { reveal_strlit("0"); assert("0"@ =~= seq![digit_char(0)]); }
        "0"
    } else if d == 1 {
        proof { reveal_strlit("1"); assert("1"@ =~= seq![digit_char(1)]); }
        "1"
    } else if d == 2 {
        proof { reveal_strlit("2"); assert("2"@ =~= seq![digit_char(2)]); }
        "2"
    } else if d == 3 {
        proof { reveal_strlit("3"); assert("3"@ =~= seq![digit_char(3)]); }
        "3"
    } else if d == 4 {
        proof { reveal_strlit("4"); assert("4"@ =~= seq![digit_char(4)]); }
        "4"
    } else if d == 5 {
        proof { reveal_strlit("5"); assert("5"@ =~= seq![digit_char(5)]); }
        "5"
    } else if d == 6 {
        proof { reveal_strlit("6"); assert("6"@ =~= seq![digit_char(6)]); }
        "6"
    } else if d == 7 {
        proof { reveal_strlit("7"); assert("7"@ =~= seq![digit_char(7)]); }
        "7"
    } else if d == 8 {
        proof { reveal_strlit("8"); assert("8"@ =~= seq![digit_char(8)]); }
        "8"
    } else {
        proof { reveal_strlit("9"); assert("9"@ =~= seq![digit_char(9)]); }
        "9"
    }
}

/// The decimal text of `n`, exactly `dec_str`.
fn usize_to_string(n: usize) -> (r: String)
    ensures
        r@ == dec_str(n as nat),
    decreases n,
{
    if n < 10 {
        digit_str(n).to_owned()
    } else {
        let mut s = usize_to_string(n / 10);
        s.append(digit_str(n % 10));
        s
    }
}

/// Relies on std's `SystemTime` for the clock reading and on chrono's
/// `DateTime::from_timestamp` and `timestamp` for the conversion: the current
/// wall-clock time as seconds since the Unix epoch. A clock before the epoch
/// or outside chrono's range is clamped rather than a panic; the value
/// depends on when the call runs, so nothing is promised of it.
#[verifier::external_body]
fn now_unix_timestamp() -> (r: i64) {
    match std::time::SystemTime::now().duration_since(std::time::UNIX_EPOCH) {
        Ok(d) => chrono::DateTime::from_timestamp(d.as_secs() as i64, d.subsec_nanos()).map_or(
            i64::MAX,
            |t| t.timestamp(),
        ),
        Err(e) => chrono::DateTime::from_timestamp(-(e.duration().as_secs() as i64), 0).map_or(
            i64::MIN,
            |t| t.timestamp(),
        ),
    }
}

/// Relies on `uuid::Uuid::new_v4` and its `Display`: a fresh random
/// identifier in the hyphenated text form. The value is random, so nothing
/// is promised of it.
#[verifier::external_body]
fn fresh_uuid_string() -> (r: String) {
    uuid::Uuid::new_v4().to_string()
}

/// The prefix followed by the message, nothing else.
fn prepend(prefix: &str, msg: &String) -> (r: String)
    ensures
        r@ == prefix@ + msg@,
{
    let mut r = prefix.to_owned();
    r.append(msg.as_str());
    r
}

impl DatabaseError {
    /// The error's display text: a variant-specific prefix followed by the
    /// carried message.
    pub fn message(&self) -> (r: String)
        ensures
            match self {
                DatabaseError::ConnectionFailed(m) => r@ == "Connection failed: "@ + m@,
                DatabaseError::QueryFailed(m) => r@ == "Query failed: "@ + m@,
                DatabaseError::InvalidData(m) => r@ == "Invalid data: "@ + m@,
                DatabaseError::NotFound(m) => r@ == "Not found: "@ + m@,
            },
    {
        match self {
            DatabaseError::ConnectionFailed(m) => prepend("Connection failed: ", m),
            DatabaseError::QueryFailed(m) => prepend("Query failed: ", m),
            DatabaseError::InvalidData(m) => prepend("Invalid data: ", m),
            DatabaseError::NotFound(m) => prepend("Not found: ", m),
        }
    }
}

/// Whether this configuration can be connected to: the simulated connection
/// test asks for a non-empty host and a non-zero port.
pub open spec fn connectable(config: DatabaseConfig) -> bool {
    config.host@.len() > 0 && config.port > 0
}

/// The id carries the connection prefix: it is `conn_` followed by some
/// suffix (in practice the fresh random identifier).
pub open spec fn has_connection_prefix(id: Seq<char>) -> bool {
    exists|suffix: Seq<char>| id == "conn_"@ + suffix
}

/// An individual database connection.
#[derive(Debug, Clone)]
pub struct DatabaseConnection {
    pub id: String,
    pub is_active: bool,
    pub last_used: i64,
}

impl DatabaseConnection {
    /// Establishes a new connection: succeeds exactly when the configuration
    /// passes the connection test, and hands back an active connection whose
    /// id is the connection prefix followed by a fresh identifier.
    pub fn new(config: &DatabaseConfig) -> (r: Result<DatabaseConnection, DatabaseError>)
        ensures
            connectable(*config) ==> (r matches Ok(c) && c.is_active
                && has_connection_prefix(c.id@)),
            !connectable(*config) ==> (r matches Err(e) && e matches DatabaseError::ConnectionFailed(
                m,
            ) && m@ == "Failed to establish connection"@),
    {
        let fresh = fresh_uuid_string();
        let id = prepend("conn_", &fresh);
        proof {
            assert(has_connection_prefix(id@)) by {
                assert(id@ == "conn_"@ + fresh@);
            }
        }
        let connection = DatabaseConnection {
            id,
            is_active: true,
            last_used: now_unix_timestamp(),
        };
        if !Self::test_connection(config) {
            return Err(
                DatabaseError::ConnectionFailed("Failed to establish connection".to_owned()),
            );
        }
        Ok(connection)
    }

    /// The simulated connection test.
    fn test_connection(config: &DatabaseConfig) -> (r: bool)
        ensures
            r == connectable(*config),
    {
        !config.host.as_str().is_empty() && config.port > 0
    }

    /// Executes a query: an empty query fails; anything else yields one
    /// simulated record echoing the query and the parameter count.
    pub fn execute_query(&self, query: &str, params: &[&str]) -> (r: Result<
        Vec<Record>,
        DatabaseError,
    >)
        ensures
            query@.len() == 0 ==> (r matches Err(e) && e matches DatabaseError::QueryFailed(m)
                && m@ == "Empty query"@),
            query@.len() > 0 ==> (r matches Ok(v) && {
                &&& v@.len() == 1
                &&& v@[0].id == 1
                &&& v@[0].data@.len() == 2
                &&& v@[0].data@[0].0@ == "query"@
                &&& v@[0].data@[0].1@ == query@
                &&& v@[0].data@[1].0@ == "params_count"@
                &&& v@[0].data@[1].1@ == dec_str(params@.len() as nat)
            }),
    {
        if query.is_empty() {
            return Err(DatabaseError::QueryFailed("Empty query".to_owned()));
        }
        let mut data: Vec<(String, String)> = Vec::new();
        data.push(("query".to_owned(), query.to_owned()));
        data.push(("params_count".to_owned(), usize_to_string(params.len())));
        let now = now_unix_timestamp();
        let record = Record { id: 1, data, created_at: now, updated_at: now };
        let mut records: Vec<Record> = Vec::new();
        records.push(record);
        Ok(records)
    }

    /// Inserts a record: an empty table name is invalid; otherwise the
    /// simulated insertion yields a time-derived id.
    pub fn insert_record(&self, table: &str, data: Vec<(String, String)>) -> (r: Result<
        u64,
        DatabaseError,
    >)
        ensures
            table@.len() == 0 ==> (r matches Err(e) && e matches DatabaseError::InvalidData(m)
                && m@ == "Empty table name"@),
            table@.len() > 0 ==> r matches Ok(_),
    {
        if table.is_empty() {
            return Err(DatabaseError::InvalidData("Empty table name".to_owned()));
        }
        let ts = now_unix_timestamp();
        Ok(#[verifier::truncate] (ts as u64))
    }

    /// Updates a record: succeeds exactly when the table name is non-empty
    /// and the id is non-zero.
    pub fn update_record(&self, table: &str, id: u64, data: Vec<(String, String)>) -> (r: Result<
        bool,
        DatabaseError,
    >)
        ensures
            table@.len() == 0 || id == 0 ==> (r matches Err(e) && e matches DatabaseError::InvalidData(
                m,
            ) && m@ == "Invalid table or ID"@),
            table@.len() > 0 && id != 0 ==> r == Ok::<bool, DatabaseError>(true),
    {
        if table.is_empty() || id == 0 {
            return Err(DatabaseError::InvalidData("Invalid table or ID".to_owned()));
        }
        Ok(true)
    }

    /// Deletes a record: succeeds exactly when the table name is non-empty
    /// and the id is non-zero.
    pub fn delete_record(&self, table: &str, id: u64) -> (r: Result<bool, DatabaseError>)
        ensures
            table@.len() == 0 || id == 0 ==> (r matches Err(e) && e matches DatabaseError::InvalidData(
                m,
            ) && m@ == "Invalid table or ID"@),
            table@.len() > 0 && id != 0 ==> r == Ok::<bool, DatabaseError>(true),
    {
        if table.is_empty() || id == 0 {
            return Err(DatabaseError::InvalidData("Invalid table or ID".to_owned()));
        }
        Ok(true)
    }
}

/// Database connection manager: a bounded pool of connections.
pub struct DatabaseManager {
    config: DatabaseConfig,
    connection_pool: Vec<DatabaseConnection>,
    max_connections: usize,
}

impl DatabaseManager {
    /// The pooled connections, in the order they were established.
    pub closed spec fn pool(self) -> Seq<DatabaseConnection> {
        self.connection_pool@
    }

    /// How many connections the pool holds.
    pub open spec fn pool_len(self) -> nat {
        self.pool().len()
    }

    /// The pool's capacity.
    pub closed spec fn capacity(self) -> nat {
        self.max_connections as nat
    }

    /// The configuration every connection uses.
    pub closed spec fn configuration(self) -> DatabaseConfig {
        self.config
    }

    /// A fresh manager: an empty pool with a capacity of 10.
    pub fn new(config: DatabaseConfig) -> (m: DatabaseManager)
        ensures
            m.pool_len() == 0,
            m.capacity() == 10,
            m.configuration() == config,
    {
        DatabaseManager { config, connection_pool: Vec::new(), max_connections: 10 }
    }

    /// Establishes a new connection and pools it. Fails when the pool is
    /// full or the configuration does not pass the connection test; the
    /// manager is unchanged on failure.
    pub fn connect(&mut self) -> (r: Result<DatabaseConnection, DatabaseError>)
        ensures
            old(self).pool_len() >= old(self).capacity() ==> (r matches Err(e)
                && e matches DatabaseError::ConnectionFailed(m)
                && m@ == "Maximum connections reached"@ && *final(self) == *old(self)),
            old(self).pool_len() < old(self).capacity() && !connectable(old(self).configuration())
                ==> (r matches Err(e) && e matches DatabaseError::ConnectionFailed(m)
                && m@ == "Failed to establish connection"@ && *final(self) == *old(self)),
            old(self).pool_len() < old(self).capacity() && connectable(old(self).configuration())
                ==> (r matches Ok(c) && c.is_active && has_connection_prefix(c.id@)
                && final(self).pool() == old(self).pool().push(c)
                && final(self).capacity() == old(self).capacity()
                && final(self).configuration() == old(self).configuration()),
    {
        if self.connection_pool.len() >= self.max_connections {
            return Err(DatabaseError::ConnectionFailed("Maximum connections reached".to_owned()));
        }
        let connection = match DatabaseConnection::new(&self.config) {
            Ok(c) => c,
            Err(e) => {
                return Err(e);
            },
        };
        let pooled = DatabaseConnection {
            id: connection.id.clone(),
            is_active: connection.is_active,
            last_used: connection.last_used,
        };
        proof {
            assert(pooled == connection);
        }
        self.connection_pool.push(pooled);
        Ok(connection)
    }

    /// Executes a query on the first pooled connection.
    pub fn execute_query(&self, query: &str, params: &[&str]) -> (r: Result<
        Vec<Record>,
        DatabaseError,
    >)
        ensures
            self.pool_len() == 0 ==> (r matches Err(e) && e matches DatabaseError::ConnectionFailed(
                m,
            ) && m@ == "No available connections"@),
            self.pool_len() > 0 && query@.len() == 0 ==> (r matches Err(e)
                && e matches DatabaseError::QueryFailed(m) && m@ == "Empty query"@),
            self.pool_len() > 0 && query@.len() > 0 ==> (r matches Ok(v) && {
                &&& v@.len() == 1
                &&& v@[0].id == 1
                &&& v@[0].data@.len() == 2
                &&& v@[0].data@[0].0@ == "query"@
                &&& v@[0].data@[0].1@ == query@
                &&& v@[0].data@[1].0@ == "params_count"@
                &&& v@[0].data@[1].1@ == dec_str(params@.len() as nat)
            }),
    {
        let connection = match self.get_available_connection() {
            Ok(c) => c,
            Err(e) => {
                return Err(e);
            },
        };
        connection.execute_query(query, params)
    }

    /// Inserts a record through the first pooled connection.
    pub fn insert_record(&self, table: &str, data: Vec<(String, String)>) -> (r: Result<
        u64,
        DatabaseError,
    >)
        ensures
            self.pool_len() == 0 ==> (r matches Err(e) && e matches DatabaseError::ConnectionFailed(
                m,
            ) && m@ == "No available connections"@),
            self.pool_len() > 0 && table@.len() == 0 ==> (r matches Err(e)
                && e matches DatabaseError::InvalidData(m) && m@ == "Empty table name"@),
            self.pool_len() > 0 && table@.len() > 0 ==> r matches Ok(_),
    {
        let connection = match self.get_available_connection() {
            Ok(c) => c,
            Err(e) => {
                return Err(e);
            },
        };
        connection.insert_record(table, data)
    }

    /// Updates a record through the first pooled connection.
    pub fn update_record(&self, table: &str, id: u64, data: Vec<(String, String)>) -> (r: Result<
        bool,
        DatabaseError,
    >)
        ensures
            self.pool_len() == 0 ==> (r matches Err(e) && e matches DatabaseError::ConnectionFailed(
                m,
            ) && m@ == "No available connections"@),
            self.pool_len() > 0 && (table@.len() == 0 || id == 0) ==> (r matches Err(e)
                && e matches DatabaseError::InvalidData(m) && m@ == "Invalid table or ID"@),
            self.pool_len() > 0 && table@.len() > 0 && id != 0 ==> r == Ok::<bool, DatabaseError>(
                true,
            ),
    {
        let connection = match self.get_available_connection() {
            Ok(c) => c,
            Err(e) => {
                return Err(e);
            },
        };
        connection.update_record(table, id, data)
    }

    /// Deletes a record through the first pooled connection.
    pub fn delete_record(&self, table: &str, id: u64) -> (r: Result<bool, DatabaseError>)
        ensures
            self.pool_len() == 0 ==> (r matches Err(e) && e matches DatabaseError::ConnectionFailed(
                m,
            ) && m@ == "No available connections"@),
            self.pool_len() > 0 && (table@.len() == 0 || id == 0) ==> (r matches Err(e)
                && e matches DatabaseError::InvalidData(m) && m@ == "Invalid table or ID"@),
            self.pool_len() > 0 && table@.len() > 0 && id != 0 ==> r == Ok::<bool, DatabaseError>(
                true,
            ),
    {
        let connection = match self.get_available_connection() {
            Ok(c) => c,
            Err(e) => {
                return Err(e);
            },
        };
        connection.delete_record(table, id)
    }

    /// The first pooled connection, or the no-connection failure.
    fn get_available_connection(&self) -> (r: Result<&DatabaseConnection, DatabaseError>)
        ensures
            self.pool_len() == 0 ==> (r matches Err(e) && e matches DatabaseError::ConnectionFailed(
                m,
            ) && m@ == "No available connections"@),
            self.pool_len() > 0 ==> r matches Ok(_),
    {
        if self.connection_pool.len() == 0 {
            return Err(DatabaseError::ConnectionFailed("No available connections".to_owned()));
        }
        Ok(&self.connection_pool[0])
    }
}

} // verus!
