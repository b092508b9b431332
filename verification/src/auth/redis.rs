//! Key-value storage backend over Redis.  Users live in two hash
//! structures (by username and by id) holding serialized records; sessions
//! live under `session:{token}` keys with a native time-to-live, so the
//! engine evicts them on its own and the manual sweep is a no-op.  The
//! known weakness of this adapter is kept as documented behavior: the
//! username-exists check and the counter increment are separate round
//! trips, with no cross-operation atomicity.
//!
//! The calls stand behind trusted wrappers whose contracts speak of the
//! hash contents; record encoding, the defensive expiry check and all
//! decisions are verified.

use vstd::prelude::*;
use crate::auth::codec::{
    decode_session, decode_user, encode_session, encode_user, lemma_session_codec_round_trip,
    lemma_user_codec_round_trip, spec_dec_session, spec_dec_user,
};
use crate::auth::models::{Session, SessionModel, StoreModel, User, UserModel};
use crate::strutil::strings_equal;

verus! {

#[verifier::external_type_specification]
#[verifier::external_body]
pub struct ExRedisConnection(redis::Connection);

/// The `users` hash: serialized user records by username.
pub uninterp spec fn kv_users(c: redis::Connection) -> Map<Seq<char>, Seq<u8>>;

/// The `users_by_id` hash: serialized user records by id.
pub uninterp spec fn kv_users_by_id(c: redis::Connection) -> Map<int, Seq<u8>>;

/// The `session:{token}` keys: serialized session records by token, as
/// written by this process and not yet deleted.  The engine may evict an
/// expired entry at any time, so a read may miss an entry that is here.
pub uninterp spec fn kv_sessions(c: redis::Connection) -> Map<Seq<char>, Seq<u8>>;

/// The `next_user_id` counter.
pub uninterp spec fn kv_counter(c: redis::Connection) -> int;

/// A stored user record that parses and is keyed by its own username.
pub open spec fn kv_user_ok(users: Map<Seq<char>, Seq<u8>>, k: Seq<char>) -> bool {
    &&& users.contains_key(k)
    &&& spec_dec_user(users[k]) matches Some(u) && u.username == k
}

/// The users a key-value store holds, as a model map: the records that
/// parse under their own username.
pub open spec fn kv_users_model(users: Map<Seq<char>, Seq<u8>>) -> Map<Seq<char>, UserModel> {
    Map::new(
        |k: Seq<char>| kv_user_ok(users, k),
        |k: Seq<char>| spec_dec_user(users[k])->Some_0,
    )
}

/// The sessions a key-value store holds, as a model map: the records
/// that parse.
pub open spec fn kv_sessions_model(sessions: Map<Seq<char>, Seq<u8>>) -> Map<
    Seq<char>,
    SessionModel,
> {
    Map::new(
        |t: Seq<char>| sessions.contains_key(t) && spec_dec_session(sessions[t]) is Some,
        |t: Seq<char>| spec_dec_session(sessions[t])->Some_0,
    )
}

/// Relies on redis::Client::open, Client::get_connection and a PING
/// round trip: yields a working connection or an error.
#[verifier::external_body]
fn redis_connect(redis_url: &str) -> (r: Result<redis::Connection, String>) {
    let client = redis::Client::open(redis_url).map_err(
        |e| format!("Failed to connect to Redis: {}", e),
    )?;
    let mut conn = client.get_connection().map_err(
        |e| format!("Failed to get Redis connection: {}", e),
    )?;
    redis::cmd("PING").query::<()>(&mut conn).map_err(|e| format!("Redis PING failed: {}", e))?;
    Ok(conn)
}

/// Relies on redis HEXISTS on the `users` hash: reports whether the
/// field is present; reads change nothing.
#[verifier::external_body]
fn kv_user_exists(c: &mut redis::Connection, username: &str) -> (r: Result<bool, String>)
    ensures
        kv_users(*final(c)) == kv_users(*old(c)),
        kv_users_by_id(*final(c)) == kv_users_by_id(*old(c)),
        kv_sessions(*final(c)) == kv_sessions(*old(c)),
        kv_counter(*final(c)) == kv_counter(*old(c)),
        r matches Ok(b) ==> b == kv_users(*old(c)).contains_key(username@),
{
    redis::Commands::hexists(c, "users", username).map_err(|e| format!("Redis error: {}", e))
}

/// Relies on redis INCR on the `next_user_id` key: the returned value is
/// the counter after the increment; on an error the counter has either
/// moved by the one increment or not at all, and nothing else changes.
#[verifier::external_body]
fn kv_incr_user_id(c: &mut redis::Connection) -> (r: Result<i64, String>)
    ensures
        kv_users(*final(c)) == kv_users(*old(c)),
        kv_users_by_id(*final(c)) == kv_users_by_id(*old(c)),
        kv_sessions(*final(c)) == kv_sessions(*old(c)),
        r matches Ok(v) ==> v == kv_counter(*old(c)) + 1 && kv_counter(*final(c)) == v,
        r is Err ==> kv_counter(*old(c)) <= kv_counter(*final(c)) <= kv_counter(*old(c)) + 1,
{
    redis::Commands::incr(c, "next_user_id", 1i64).map_err(|e| format!("Redis error: {}", e))
}

/// Relies on redis HSET on the `users` hash: stores the record under the
/// username; the single command either applies or does not.
#[verifier::external_body]
fn kv_put_user(c: &mut redis::Connection, username: &str, record: &[u8]) -> (r: Result<
    (),
    String,
>)
    ensures
        kv_users_by_id(*final(c)) == kv_users_by_id(*old(c)),
        kv_sessions(*final(c)) == kv_sessions(*old(c)),
        kv_counter(*final(c)) == kv_counter(*old(c)),
        r is Ok ==> kv_users(*final(c)) == kv_users(*old(c)).insert(username@, record@),
        r is Err ==> kv_users(*final(c)) == kv_users(*old(c)) || kv_users(*final(c)) == kv_users(
            *old(c),
        ).insert(username@, record@),
{
    redis::Commands::hset::<&str, &str, &[u8], usize>(c, "users", username, record).map(
        |_| (),
    ).map_err(|e| format!("Redis error: {}", e))
}

/// Relies on redis HSET on the `users_by_id` hash: stores the record
/// under the id; the single command either applies or does not.
#[verifier::external_body]
fn kv_put_user_by_id(c: &mut redis::Connection, user_id: i64, record: &[u8]) -> (r: Result<
    (),
    String,
>)
    ensures
        kv_users(*final(c)) == kv_users(*old(c)),
        kv_sessions(*final(c)) == kv_sessions(*old(c)),
        kv_counter(*final(c)) == kv_counter(*old(c)),
        r is Ok ==> kv_users_by_id(*final(c)) == kv_users_by_id(*old(c)).insert(
            user_id as int,
            record@,
        ),
        r is Err ==> kv_users_by_id(*final(c)) == kv_users_by_id(*old(c)) || kv_users_by_id(
            *final(c),
        ) == kv_users_by_id(*old(c)).insert(user_id as int, record@),
{
    redis::Commands::hset::<&str, i64, &[u8], usize>(c, "users_by_id", user_id, record).map(
        |_| (),
    ).map_err(|e| format!("Redis error: {}", e))
}

/// Relies on redis HGET on the `users` hash: returns the record under
/// the username, if any; reads change nothing.
#[verifier::external_body]
fn kv_get_user(c: &mut redis::Connection, username: &str) -> (r: Result<Option<Vec<u8>>, String>)
    ensures
        kv_users(*final(c)) == kv_users(*old(c)),
        kv_users_by_id(*final(c)) == kv_users_by_id(*old(c)),
        kv_sessions(*final(c)) == kv_sessions(*old(c)),
        kv_counter(*final(c)) == kv_counter(*old(c)),
        r matches Ok(Some(v)) ==> kv_users(*old(c)).contains_key(username@) && kv_users(*old(c))[
            username@
        ] == v@,
        r matches Ok(None) ==> !kv_users(*old(c)).contains_key(username@),
{
    redis::Commands::hget(c, "users", username).map_err(|e| format!("Redis error: {}", e))
}

/// Relies on redis HGET on the `users_by_id` hash: returns the record
/// under the id, if any; reads change nothing.
#[verifier::external_body]
fn kv_get_user_by_id(c: &mut redis::Connection, user_id: i64) -> (r: Result<
    Option<Vec<u8>>,
    String,
>)
    ensures
        kv_users(*final(c)) == kv_users(*old(c)),
        kv_users_by_id(*final(c)) == kv_users_by_id(*old(c)),
        kv_sessions(*final(c)) == kv_sessions(*old(c)),
        kv_counter(*final(c)) == kv_counter(*old(c)),
        r matches Ok(Some(v)) ==> kv_users_by_id(*old(c)).contains_key(user_id as int)
            && kv_users_by_id(*old(c))[user_id as int] == v@,
        r matches Ok(None) ==> !kv_users_by_id(*old(c)).contains_key(user_id as int),
{
    redis::Commands::hget(c, "users_by_id", user_id).map_err(|e| format!("Redis error: {}", e))
}

/// Relies on redis SETEX on a `session:{token}` key: stores the record
/// with the given time-to-live; the single command either applies or
/// does not.
#[verifier::external_body]
fn kv_set_session(c: &mut redis::Connection, token: &str, record: &[u8], ttl_seconds: u64) -> (r:
    Result<(), String>)
    ensures
        kv_users(*final(c)) == kv_users(*old(c)),
        kv_users_by_id(*final(c)) == kv_users_by_id(*old(c)),
        kv_counter(*final(c)) == kv_counter(*old(c)),
        r is Ok ==> kv_sessions(*final(c)) == kv_sessions(*old(c)).insert(token@, record@),
        r is Err ==> kv_sessions(*final(c)) == kv_sessions(*old(c)) || kv_sessions(*final(c))
            == kv_sessions(*old(c)).insert(token@, record@),
{
    redis::Commands::set_ex(c, format!("session:{}", token), record, ttl_seconds).map_err(
        |e| format!("Redis error: {}", e),
    )
}

/// Relies on redis GET on a `session:{token}` key: returns the record if
/// the key is present and not yet evicted; reads change nothing.  An
/// absent result says nothing, since the engine evicts expired keys on
/// its own.
#[verifier::external_body]
fn kv_get_session(c: &mut redis::Connection, token: &str) -> (r: Result<Option<Vec<u8>>, String>)
    ensures
        kv_users(*final(c)) == kv_users(*old(c)),
        kv_users_by_id(*final(c)) == kv_users_by_id(*old(c)),
        kv_sessions(*final(c)) == kv_sessions(*old(c)),
        kv_counter(*final(c)) == kv_counter(*old(c)),
        r matches Ok(Some(v)) ==> kv_sessions(*old(c)).contains_key(token@) && kv_sessions(
            *old(c),
        )[token@] == v@,
{
    redis::Commands::get(c, format!("session:{}", token)).map_err(
        |e| format!("Redis error: {}", e),
    )
}

/// Relies on redis DEL on a `session:{token}` key: removes the key; on
/// an error the key is either gone or untouched.
#[verifier::external_body]
fn kv_del_session(c: &mut redis::Connection, token: &str) -> (r: Result<(), String>)
    ensures
        kv_users(*final(c)) == kv_users(*old(c)),
        kv_users_by_id(*final(c)) == kv_users_by_id(*old(c)),
        kv_counter(*final(c)) == kv_counter(*old(c)),
        r is Ok ==> kv_sessions(*final(c)) == kv_sessions(*old(c)).remove(token@),
        r is Err ==> kv_sessions(*final(c)) == kv_sessions(*old(c)) || kv_sessions(*final(c))
            == kv_sessions(*old(c)).remove(token@),
{
    redis::Commands::del::<String, usize>(c, format!("session:{}", token)).map(|_| ()).map_err(
        |e| format!("Redis error: {}", e),
    )
}

/// Key-value storage backend.
pub struct RedisBackend {
    conn: redis::Connection,
}

impl View for RedisBackend {
    type V = StoreModel;

    closed spec fn view(&self) -> StoreModel {
        StoreModel {
            users: kv_users_model(kv_users(self.conn)),
            sessions: kv_sessions_model(kv_sessions(self.conn)),
            next_id: kv_counter(self.conn) + 1,
        }
    }
}

impl RedisBackend {
    /// Connect to the server and check the connection with a ping.
    pub fn new(redis_url: &str) -> (r: Result<Self, String>) {
        match redis_connect(redis_url) {
            Ok(conn) => Ok(RedisBackend { conn }),
            Err(e) => Err(e),
        }
    }

    /// Create a user: check for the username, draw the next id, and store
    /// the record in both hashes.  The check and the increment are
    /// separate round trips; under concurrent registration of the same
    /// username both callers can pass the check — this adapter's known
    /// race window, kept as documented behavior.
    pub fn create_user_at(&mut self, username: &str, password_hash: &str, now: i64) -> (r: Result<
        User,
        String,
    >)
        ensures
            final(self)@.sessions == old(self)@.sessions,
            r matches Ok(u) ==> !old(self)@.users.contains_key(username@) && final(self)@.users
                == old(self)@.users.insert(username@, u@) && u.username@ == username@
                && u.password_hash@ == password_hash@ && u@.created_at == now as int,
            old(self)@.users.contains_key(username@) ==> r is Err,
    {
        let exists = match kv_user_exists(&mut self.conn, username) {
            Ok(b) => b,
            Err(e) => {
                return Err(e);
            },
        };
        if exists {
            return Err("Username already exists".to_owned());
        }

        let user_id = match kv_incr_user_id(&mut self.conn) {
            Ok(v) => v,
            Err(e) => {
                return Err(e);
            },
        };

        let user = User {
            id: user_id,
            username: username.to_owned(),
            password_hash: password_hash.to_owned(),
            created_at: now,
        };

        let record = encode_user(&user);
        proof {
            lemma_user_codec_round_trip(user@);
        }

        match kv_put_user(&mut self.conn, username, record.as_slice()) {
            Ok(()) => (),
            Err(e) => {
                return Err(e);
            },
        }
        match kv_put_user_by_id(&mut self.conn, user_id, record.as_slice()) {
            Ok(()) => (),
            Err(e) => {
                proof {
                    assert(self@.users =~= old(self)@.users.insert(username@, user@));
                }
                return Err(e);
            },
        }

        proof {
            assert(self@.users =~= old(self)@.users.insert(username@, user@));
        }
        Ok(user)
    }

    /// Look a user up by name; a record that does not parse under its own
    /// username is reported as a deserialization failure.
    pub fn get_user_by_username(&mut self, username: &str) -> (r: Result<Option<User>, String>)
        ensures
            final(self)@ == old(self)@,
            r matches Ok(Some(u)) ==> old(self)@.users.contains_key(username@) && u@ == old(
                self,
            )@.users[username@] && u.username@ == username@,
            r matches Ok(None) ==> !old(self)@.users.contains_key(username@),
    {
        let record = match kv_get_user(&mut self.conn, username) {
            Ok(v) => v,
            Err(e) => {
                return Err(e);
            },
        };
        match record {
            Some(bytes) => match decode_user(bytes.as_slice()) {
                Some(u) => {
                    if strings_equal(u.username.as_str(), username) {
                        Ok(Some(u))
                    } else {
                        Err("Failed to deserialize user".to_owned())
                    }
                },
                None => Err("Failed to deserialize user".to_owned()),
            },
            None => Ok(None),
        }
    }

    /// Create a session: fetch the user record by id to copy the
    /// username, then store the session with a native time-to-live of
    /// `expires_at - now` seconds (at least one second, so a session that
    /// is already dead still reaches the defensive check in lookups).
    pub fn create_session_at(&mut self, token: &str, user_id: i64, expires_at: i64, now: i64)
        -> (r: Result<Session, String>)
        requires
            0 <= now,
        ensures
            final(self)@.users == old(self)@.users,
            r matches Ok(sess) ==> final(self)@.sessions == old(self)@.sessions.insert(
                token@,
                sess@,
            ) && sess.token@ == token@ && sess.user_id == user_id && sess.expires_at == expires_at
                && sess.created_at == now,
    {
        let record = match kv_get_user_by_id(&mut self.conn, user_id) {
            Ok(v) => v,
            Err(e) => {
                return Err(e);
            },
        };
        let user = match record {
            Some(bytes) => match decode_user(bytes.as_slice()) {
                Some(u) => u,
                None => {
                    return Err("Failed to deserialize user".to_owned());
                },
            },
            None => {
                return Err("User not found".to_owned());
            },
        };

        let session = Session {
            token: token.to_owned(),
            user_id,
            username: user.username,
            created_at: now,
            expires_at,
        };

        let record = encode_session(&session);
        proof {
            lemma_session_codec_round_trip(session@);
        }

        // Time to live in seconds; the engine refuses zero, so a dead
        // session keeps a minimal one and the lookup check filters it.
        let ttl: u64 = if expires_at > now {
            (expires_at - now) as u64
        } else {
            1u64
        };

        let ghost stored = session@;
        let r = kv_set_session(&mut self.conn, token, record.as_slice(), ttl);
        proof {
            if r is Ok {
                assert(self@.sessions =~= old(self)@.sessions.insert(token@, stored));
            }
        }
        match r {
            Ok(()) => Ok(session),
            Err(e) => Err(e),
        }
    }

    /// Look a session up: the engine evicts expired keys on its own, but
    /// a read may race that sweep, so the expiry check is repeated here
    /// and a dead session is dropped.
    pub fn get_session_at(&mut self, token: &str, now: i64) -> (r: Result<Option<Session>, String>)
        ensures
            final(self)@.users == old(self)@.users,
            final(self)@.sessions == old(self)@.sessions || final(self)@.sessions == old(
                self,
            )@.sessions.remove(token@),
            r matches Ok(Some(s)) ==> s@.expires_at > now as int,
    {
        let record = match kv_get_session(&mut self.conn, token) {
            Ok(v) => v,
            Err(e) => {
                return Err(e);
            },
        };
        match record {
            Some(bytes) => match decode_session(bytes.as_slice()) {
                Some(session) => {
                    if session.expires_at > now {
                        Ok(Some(session))
                    } else {
                        match kv_del_session(&mut self.conn, token) {
                            Ok(()) => Ok(None),
                            Err(_) => Ok(None),
                        }
                    }
                },
                None => Err("Failed to deserialize session".to_owned()),
            },
            None => Ok(None),
        }
    }

    /// Delete a session; deleting an absent token is not an error.
    pub fn delete_session(&mut self, token: &str) -> (r: Result<(), String>)
        ensures
            final(self)@.users == old(self)@.users,
            final(self)@.next_id == old(self)@.next_id,
            r is Ok ==> final(self)@.sessions == old(self)@.sessions.remove(token@),
            r is Err ==> final(self)@.sessions == old(self)@.sessions || final(self)@.sessions
                == old(self)@.sessions.remove(token@),
    {
        let r = kv_del_session(&mut self.conn, token);
        proof {
            match r {
                Ok(()) => {
                    assert(self@.sessions =~= old(self)@.sessions.remove(token@));
                },
                Err(_) => {
                    if kv_sessions(self.conn) == kv_sessions(old(self).conn).remove(token@) {
                        assert(self@.sessions =~= old(self)@.sessions.remove(token@));
                    } else {
                        assert(self@.sessions =~= old(self)@.sessions);
                    }
                },
            }
        }
        r
    }

    /// The engine deletes expired keys through their time-to-live on its
    /// own, so the manual sweep has nothing to do.
    pub fn delete_expired_sessions(&mut self) -> (r: Result<(), String>)
        ensures
            final(self)@ == old(self)@,
            r is Ok,
    {
        Ok(())
    }
}

} // verus!
