//! Relational storage backend over SQLite.  The SQL statements stand
//! behind trusted wrappers whose contracts speak of the table contents;
//! the decision logic around them (conflict mapping, the user lookup at
//! session creation, expiry filtering) is verified.

use vstd::prelude::*;
use crate::auth::models::{Session, SessionModel, StoreModel, User, UserModel};

verus! {

#[verifier::external_type_specification]
#[verifier::external_body]
pub struct ExSqliteConnection(rusqlite::Connection);

/// The rows of the `users` table, keyed by username.
pub uninterp spec fn sqlite_users(c: rusqlite::Connection) -> Map<Seq<char>, UserModel>;

/// The rows of the `sessions` table, keyed by token.
pub uninterp spec fn sqlite_sessions(c: rusqlite::Connection) -> Map<Seq<char>, SessionModel>;

/// The next id the `users` AUTOINCREMENT column will assign: one more
/// than the largest id that has ever existed in the table.
pub uninterp spec fn sqlite_next_id(c: rusqlite::Connection) -> int;

/// How an insert into `users` failed.
enum InsertUserError {
    /// The UNIQUE constraint on `username` rejected the row.
    Conflict,
    /// Any other engine failure.
    Other(String),
}

/// Relies on rusqlite::Connection::open: opens (or creates) the database
/// file.  Nothing is assumed of the contents of an existing file.
#[verifier::external_body]
fn sqlite_open(path: &str) -> (r: Result<rusqlite::Connection, String>) {
    match rusqlite::Connection::open(path) {
        Ok(c) => Ok(c),
        Err(e) => Err(format!("Failed to open database: {}", e)),
    }
}

/// Relies on rusqlite::Connection::execute_batch: `CREATE TABLE IF NOT
/// EXISTS` and `CREATE INDEX IF NOT EXISTS` never change existing rows.
#[verifier::external_body]
fn sql_init_schema(c: &mut rusqlite::Connection) -> (r: Result<(), String>)
    ensures
        sqlite_users(*final(c)) == sqlite_users(*old(c)),
        sqlite_sessions(*final(c)) == sqlite_sessions(*old(c)),
        sqlite_next_id(*final(c)) == sqlite_next_id(*old(c)),
{
    c.execute_batch(
        "CREATE TABLE IF NOT EXISTS users (id INTEGER PRIMARY KEY AUTOINCREMENT, username TEXT UNIQUE NOT NULL, password_hash TEXT NOT NULL, created_at INTEGER NOT NULL);
        CREATE TABLE IF NOT EXISTS sessions (token TEXT PRIMARY KEY, user_id INTEGER NOT NULL, username TEXT NOT NULL, created_at INTEGER NOT NULL, expires_at INTEGER NOT NULL, FOREIGN KEY(user_id) REFERENCES users(id) ON DELETE CASCADE);
        CREATE INDEX IF NOT EXISTS idx_users_username ON users(username);
        CREATE INDEX IF NOT EXISTS idx_sessions_user_id ON sessions(user_id);",
    ).map_err(|e| format!("Failed to create schema: {}", e))
}

/// Relies on rusqlite::Connection::query_row with `INSERT ... RETURNING
/// id`: a single statement either inserts the row and reports its
/// AUTOINCREMENT id (one larger than any id that ever existed, hence
/// positive and fresh), fails on the UNIQUE(username) constraint exactly
/// when the username is present, or fails without effect.  Other engine
/// errors are reported under a "Failed to create user: " prefix, so they
/// never collide with the conflict message.
#[verifier::external_body]
fn sql_insert_user(c: &mut rusqlite::Connection, username: &str, password_hash: &str, now: i64)
    -> (r: Result<i64, InsertUserError>)
    ensures
        sqlite_sessions(*final(c)) == sqlite_sessions(*old(c)),
        r matches Ok(id) ==> !sqlite_users(*old(c)).contains_key(username@) && 1 <= id
            && id == sqlite_next_id(*old(c)) && sqlite_next_id(*final(c)) == id + 1
            && sqlite_users(*final(c)) == sqlite_users(*old(c)).insert(
            username@,
            UserModel {
                id: id as int,
                username: username@,
                password_hash: password_hash@,
                created_at: now as int,
            },
        ),
        r matches Err(e) ==> sqlite_users(*final(c)) == sqlite_users(*old(c))
            && sqlite_next_id(*final(c)) >= sqlite_next_id(*old(c)),
        r matches Err(InsertUserError::Conflict) ==> sqlite_users(*old(c)).contains_key(
            username@,
        ),
        r matches Err(InsertUserError::Other(m)) ==> m@ != "Username already exists"@,
        sqlite_users(*old(c)).contains_key(username@) ==> r is Err,
{
    match c.query_row(
        "INSERT INTO users (username, password_hash, created_at) VALUES (?1, ?2, ?3) RETURNING id",
        (username, password_hash, now),
        |row| row.get::<usize, i64>(0),
    ) {
        Ok(id) => Ok(id),
        Err(e) => match e.sqlite_error_code() {
            Some(rusqlite::ErrorCode::ConstraintViolation) => Err(InsertUserError::Conflict),
            _ => Err(InsertUserError::Other(format!("Failed to create user: {}", e))),
        },
    }
}

/// Relies on rusqlite::Connection::query_row with `SELECT ... WHERE
/// username = ?`: returns the row under that username, if any.
#[verifier::external_body]
fn sql_get_user(c: &rusqlite::Connection, username: &str) -> (r: Result<Option<User>, String>)
    ensures
        r matches Ok(Some(u)) ==> sqlite_users(*c).contains_key(username@) && u@ == sqlite_users(
            *c,
        )[username@] && u.username@ == username@,
        r matches Ok(None) ==> !sqlite_users(*c).contains_key(username@),
{
    match c.query_row(
        "SELECT id, username, password_hash, created_at FROM users WHERE username = ?1",
        (username,),
        |row| Ok(User { id: row.get(0)?, username: row.get(1)?, password_hash: row.get(2)?, created_at: row.get(3)? }),
    ) {
        Ok(u) => Ok(Some(u)),
        Err(rusqlite::Error::QueryReturnedNoRows) => Ok(None),
        Err(e) => Err(format!("Database error: {}", e)),
    }
}

/// Relies on rusqlite::Connection::query_row with `SELECT ... WHERE id =
/// ?`: `id` is the primary key, so at most one row carries it.  Engine
/// errors are reported under a "Database error: " prefix, so they never
/// collide with the "User not found" sentinel.
#[verifier::external_body]
fn sql_get_user_by_id(c: &rusqlite::Connection, user_id: i64) -> (r: Result<Option<User>, String>)
    ensures
        r matches Ok(Some(u)) ==> sqlite_users(*c).contains_key(u.username@) && u@ == sqlite_users(
            *c,
        )[u.username@] && u.id == user_id,
        r matches Ok(None) ==> forall|k: Seq<char>|
            sqlite_users(*c).contains_key(k) ==> (#[trigger] sqlite_users(*c)[k]).id
                != user_id as int,
        r matches Err(m) ==> m@ != "User not found"@,
{
    match c.query_row(
        "SELECT id, username, password_hash, created_at FROM users WHERE id = ?1",
        (user_id,),
        |row| Ok(User { id: row.get(0)?, username: row.get(1)?, password_hash: row.get(2)?, created_at: row.get(3)? }),
    ) {
        Ok(u) => Ok(Some(u)),
        Err(rusqlite::Error::QueryReturnedNoRows) => Ok(None),
        Err(e) => Err(format!("Database error: {}", e)),
    }
}

/// Relies on rusqlite::Connection::execute with `INSERT OR REPLACE INTO
/// sessions`: stores the row under its token, replacing any previous row
/// with that token; a failed statement has no effect.  Engine errors are
/// reported under a "Failed to create session: " prefix, so they never
/// collide with the "User not found" sentinel.
#[verifier::external_body]
fn sql_insert_session(
    c: &mut rusqlite::Connection,
    token: &str,
    user_id: i64,
    username: &str,
    now: i64,
    expires_at: i64,
) -> (r: Result<(), String>)
    ensures
        sqlite_users(*final(c)) == sqlite_users(*old(c)),
        sqlite_next_id(*final(c)) == sqlite_next_id(*old(c)),
        r is Ok ==> sqlite_sessions(*final(c)) == sqlite_sessions(*old(c)).insert(
            token@,
            SessionModel {
                token: token@,
                user_id: user_id as int,
                username: username@,
                created_at: now as int,
                expires_at: expires_at as int,
            },
        ),
        r is Err ==> sqlite_sessions(*final(c)) == sqlite_sessions(*old(c)),
        r matches Err(m) ==> m@ != "User not found"@,
{
    match c.execute(
        "INSERT OR REPLACE INTO sessions (token, user_id, username, created_at, expires_at) VALUES (?1, ?2, ?3, ?4, ?5)",
        (token, user_id, username, now, expires_at),
    ) {
        Ok(_) => Ok(()),
        Err(e) => Err(format!("Failed to create session: {}", e)),
    }
}

/// Relies on rusqlite::Connection::query_row with `SELECT ... WHERE token
/// = ?`: returns the session row under that token, if any.
#[verifier::external_body]
fn sql_get_session(c: &rusqlite::Connection, token: &str) -> (r: Result<Option<Session>, String>)
    ensures
        r matches Ok(Some(s)) ==> sqlite_sessions(*c).contains_key(token@) && s@
            == sqlite_sessions(*c)[token@] && s.token@ == token@,
        r matches Ok(None) ==> !sqlite_sessions(*c).contains_key(token@),
{
    match c.query_row(
        "SELECT token, user_id, username, created_at, expires_at FROM sessions WHERE token = ?1",
        (token,),
        |row| Ok(Session { token: row.get(0)?, user_id: row.get(1)?, username: row.get(2)?, created_at: row.get(3)?, expires_at: row.get(4)? }),
    ) {
        Ok(s) => Ok(Some(s)),
        Err(rusqlite::Error::QueryReturnedNoRows) => Ok(None),
        Err(e) => Err(format!("Database error: {}", e)),
    }
}

/// Relies on rusqlite::Connection::execute with `DELETE ... WHERE token =
/// ?`: removes the row under that token; deleting an absent token
/// succeeds; a failed statement has no effect.
#[verifier::external_body]
fn sql_delete_session(c: &mut rusqlite::Connection, token: &str) -> (r: Result<(), String>)
    ensures
        sqlite_users(*final(c)) == sqlite_users(*old(c)),
        sqlite_next_id(*final(c)) == sqlite_next_id(*old(c)),
        r is Ok ==> sqlite_sessions(*final(c)) == sqlite_sessions(*old(c)).remove(token@),
        r is Err ==> sqlite_sessions(*final(c)) == sqlite_sessions(*old(c)),
{
    match c.execute("DELETE FROM sessions WHERE token = ?1", (token,)) {
        Ok(_) => Ok(()),
        Err(e) => Err(format!("Failed to delete session: {}", e)),
    }
}

/// Relies on rusqlite::Connection::execute with `DELETE ... WHERE
/// expires_at <= ?`: exactly the rows that are not live at `now` leave;
/// a failed statement has no effect.
#[verifier::external_body]
fn sql_delete_expired(c: &mut rusqlite::Connection, now: i64) -> (r: Result<(), String>)
    ensures
        sqlite_users(*final(c)) == sqlite_users(*old(c)),
        sqlite_next_id(*final(c)) == sqlite_next_id(*old(c)),
        r is Ok ==> sqlite_sessions(*final(c)) == Map::<Seq<char>, SessionModel>::new(
            |t: Seq<char>|
                sqlite_sessions(*old(c)).contains_key(t) && sqlite_sessions(*old(c))[t].expires_at
                    > now as int,
            |t: Seq<char>| sqlite_sessions(*old(c))[t],
        ),
        r is Err ==> sqlite_sessions(*final(c)) == sqlite_sessions(*old(c)),
{
    match c.execute("DELETE FROM sessions WHERE expires_at <= ?1", (now,)) {
        Ok(_) => Ok(()),
        Err(e) => Err(format!("Failed to delete expired sessions: {}", e)),
    }
}

/// Relational storage backend.
pub struct SQLiteBackend {
    conn: rusqlite::Connection,
}

impl View for SQLiteBackend {
    type V = StoreModel;

    closed spec fn view(&self) -> StoreModel {
        StoreModel {
            users: sqlite_users(self.conn),
            sessions: sqlite_sessions(self.conn),
            next_id: sqlite_next_id(self.conn),
        }
    }
}

impl SQLiteBackend {
    /// Open the database file and make sure the schema exists.
    pub fn new(db_path: &str) -> (r: Result<Self, String>) {
        let mut conn = match sqlite_open(db_path) {
            Ok(c) => c,
            Err(e) => {
                return Err(e);
            },
        };
        match sql_init_schema(&mut conn) {
            Ok(()) => Ok(SQLiteBackend { conn }),
            Err(e) => Err(e),
        }
    }

    /// Create a user: the UNIQUE constraint turns duplicates into the
    /// canonical conflict message.
    pub fn create_user_at(&mut self, username: &str, password_hash: &str, now: i64) -> (r:
        Result<User, String>)
        ensures
            final(self)@.sessions == old(self)@.sessions,
            r matches Ok(u) ==> !old(self)@.users.contains_key(username@) && final(self)@.users
                == old(self)@.users.insert(username@, u@) && u.username@ == username@
                && u.password_hash@ == password_hash@ && u@.created_at == now as int && 1 <= u.id,
            r is Err ==> final(self)@.users == old(self)@.users,
            r matches Err(m) && m@ == "Username already exists"@ ==> old(
                self,
            )@.users.contains_key(username@),
            old(self)@.users.contains_key(username@) ==> r is Err,
    {
        match sql_insert_user(&mut self.conn, username, password_hash, now) {
            Ok(user_id) => Ok(
                User {
                    id: user_id,
                    username: username.to_owned(),
                    password_hash: password_hash.to_owned(),
                    created_at: now,
                },
            ),
            Err(InsertUserError::Conflict) => Err("Username already exists".to_owned()),
            Err(InsertUserError::Other(e)) => Err(e),
        }
    }

    /// Look a user up by name.
    pub fn get_user_by_username(&self, username: &str) -> (r: Result<Option<User>, String>)
        ensures
            r matches Ok(Some(u)) ==> self@.users.contains_key(username@) && u@ == self@.users[
                username@
            ] && u.username@ == username@,
            r matches Ok(None) ==> !self@.users.contains_key(username@),
    {
        sql_get_user(&self.conn, username)
    }

    /// Create a session: the user must exist; its username is copied into
    /// the session row, so lookups need no join.  The stored session is
    /// returned.
    pub fn create_session_at(&mut self, token: &str, user_id: i64, expires_at: i64, now: i64)
        -> (r: Result<Session, String>)
        ensures
            final(self)@.users == old(self)@.users,
            r matches Ok(sess) ==> final(self)@.sessions == old(self)@.sessions.insert(
                token@,
                sess@,
            ) && sess.token@ == token@ && sess.user_id == user_id && sess.expires_at == expires_at
                && sess.created_at == now && old(self)@.users.contains_key(sess.username@)
                && old(self)@.users[sess.username@].id == user_id as int,
            r is Err ==> final(self)@.sessions == old(self)@.sessions,
            r matches Err(m) && m@ == "User not found"@ ==> forall|k: Seq<char>|
                old(self)@.users.contains_key(k) ==> (#[trigger] old(self)@.users[k]).id
                    != user_id as int,
    {
        let user = match sql_get_user_by_id(&self.conn, user_id) {
            Ok(Some(u)) => u,
            Ok(None) => {
                return Err("User not found".to_owned());
            },
            Err(e) => {
                return Err(e);
            },
        };

        let session = Session {
            token: token.to_owned(),
            user_id,
            username: user.username,
            created_at: now,
            expires_at,
        };

        match sql_insert_session(
            &mut self.conn,
            token,
            user_id,
            session.username.as_str(),
            now,
            expires_at,
        ) {
            Ok(()) => Ok(session),
            Err(e) => Err(e),
        }
    }

    /// Look a session up, dropping it when it is no longer live.
    pub fn get_session_at(&mut self, token: &str, now: i64) -> (r: Result<Option<Session>, String>)
        ensures
            final(self)@.users == old(self)@.users,
            final(self)@.sessions == old(self)@.sessions || final(self)@.sessions == old(
                self,
            )@.sessions.remove(token@),
            r matches Ok(Some(s)) ==> old(self)@.sessions.contains_key(token@) && s@ == old(
                self,
            )@.sessions[token@] && s@.expires_at > now as int && s.token@ == token@,
    {
        let found = match sql_get_session(&self.conn, token) {
            Ok(f) => f,
            Err(e) => {
                return Err(e);
            },
        };
        match found {
            Some(session) => {
                if session.expires_at > now {
                    Ok(Some(session))
                } else {
                    match sql_delete_session(&mut self.conn, token) {
                        Ok(()) => Ok(None),
                        Err(_) => Ok(None),
                    }
                }
            },
            None => Ok(None),
        }
    }

    /// Delete a session; deleting an absent token is not an error.
    pub fn delete_session(&mut self, token: &str) -> (r: Result<(), String>)
        ensures
            final(self)@.users == old(self)@.users,
            final(self)@.next_id == old(self)@.next_id,
            r is Ok ==> final(self)@.sessions == old(self)@.sessions.remove(token@),
            r is Err ==> final(self)@.sessions == old(self)@.sessions,
    {
        sql_delete_session(&mut self.conn, token)
    }

    /// Sweep out every session that is not live at `now`.
    pub fn delete_expired_sessions_at(&mut self, now: i64) -> (r: Result<(), String>)
        ensures
            final(self)@.users == old(self)@.users,
            r is Ok ==> final(self)@.sessions == Map::<Seq<char>, SessionModel>::new(
                |t: Seq<char>|
                    old(self)@.sessions.contains_key(t) && old(self)@.sessions[t].expires_at
                        > now as int,
                |t: Seq<char>| old(self)@.sessions[t],
            ),
            r is Err ==> final(self)@.sessions == old(self)@.sessions,
    {
        sql_delete_expired(&mut self.conn, now)
    }
}

} // verus!
