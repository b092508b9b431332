//! Database facade: selects and wraps exactly one storage adapter behind
//! a uniform call surface and a uniform error surface.  Every operation
//! reads the clock once and hands the time to the adapter, so each
//! adapter is verified for every value of the current time.

use vstd::prelude::*;
use crate::auth::document::DocumentStoreBackend;
use crate::auth::memory::InMemoryBackend;
use crate::auth::models::{
    create_session_model, create_user_model, delete_expired_model, delete_session_model,
    get_session_model, Session, SessionModel, StoreModel, User,
};
use crate::auth::redis::RedisBackend;
use crate::auth::sqlite::SQLiteBackend;
use crate::clock;

verus! {

/// Database backend configuration: exactly one adapter is chosen at
/// construction time.
pub enum DatabaseBackend {
    /// In-memory storage: fast, no setup, lost on restart.
    InMemory,
    /// SQLite storage: file-based; the payload is the database path.
    SQLite(String),
    /// Redis storage: the payload is the connection URL.
    Redis(String),
    /// MongoDB storage: the payload is the connection URL, which may
    /// name the database (`geekcraft` when it does not).
    DocumentStore(String),
}

/// The one active storage adapter.
enum Store {
    InMemory(InMemoryBackend),
    SQLite(SQLiteBackend),
    Redis(RedisBackend),
    DocumentStore(DocumentStoreBackend),
}

/// Main authentication database wrapper.
pub struct AuthDatabase {
    backend: Store,
}

impl View for AuthDatabase {
    type V = StoreModel;

    closed spec fn view(&self) -> StoreModel {
        match self.backend {
            Store::InMemory(b) => b@,
            Store::SQLite(b) => b@,
            Store::Redis(b) => b@,
            Store::DocumentStore(b) => b@,
        }
    }
}

impl AuthDatabase {
    /// The active adapter is the in-memory one.
    pub closed spec fn is_in_memory(&self) -> bool {
        self.backend is InMemory
    }

    /// The active adapter is the relational one.
    pub closed spec fn is_sqlite(&self) -> bool {
        self.backend is SQLite
    }

    /// The active adapter is the document-store one.
    pub closed spec fn is_document_store(&self) -> bool {
        self.backend is DocumentStore
    }

    /// The adapter's internal invariant (only the in-memory adapter
    /// carries one).
    pub closed spec fn inv(&self) -> bool {
        match self.backend {
            Store::InMemory(b) => b.wf(),
            Store::SQLite(_) => true,
            Store::Redis(_) => true,
            Store::DocumentStore(_) => true,
        }
    }

    /// Construct the chosen adapter.  A backend that cannot be reached
    /// fails here, before any operation is served.
    pub fn new(backend: DatabaseBackend) -> (r: Result<Self, String>)
        ensures
            r matches Ok(db) ==> db.inv(),
            backend is InMemory ==> (r matches Ok(db) && db.is_in_memory() && db@
                == StoreModel::empty()),
    {
        match backend {
            DatabaseBackend::InMemory => Ok(
                AuthDatabase { backend: Store::InMemory(InMemoryBackend::new()) },
            ),
            DatabaseBackend::SQLite(path) => match SQLiteBackend::new(path.as_str()) {
                Ok(b) => Ok(AuthDatabase { backend: Store::SQLite(b) }),
                Err(e) => Err(e),
            },
            DatabaseBackend::Redis(url) => match RedisBackend::new(url.as_str()) {
                Ok(b) => Ok(AuthDatabase { backend: Store::Redis(b) }),
                Err(e) => Err(e),
            },
            DatabaseBackend::DocumentStore(url) => match DocumentStoreBackend::new(url.as_str()) {
                Ok(b) => Ok(AuthDatabase { backend: Store::DocumentStore(b) }),
                Err(e) => Err(e),
            },
        }
    }

    /// Create a user: fails on a duplicate username; otherwise the next
    /// id is assigned and the record persists.
    pub fn create_user(&mut self, username: &str, password_hash: &str) -> (r: Result<
        User,
        String,
    >)
        requires
            old(self).inv(),
        ensures
            final(self).inv(),
            final(self).is_in_memory() == old(self).is_in_memory(),
            final(self)@.sessions == old(self)@.sessions,
            r matches Ok(u) ==> !old(self)@.users.contains_key(username@) && final(self)@.users
                == old(self)@.users.insert(username@, u@) && u.username@ == username@
                && u.password_hash@ == password_hash@ && 0 <= u@.created_at,
            old(self)@.users.contains_key(username@) ==> r is Err,
            old(self).is_in_memory() ==> ({
                &&& (!old(self)@.users.contains_key(username@) && old(self)@.next_id < i64::MAX
                    ==> r is Ok)
                &&& (r matches Ok(u) ==> exists|now: int|
                    #![trigger create_user_model(old(self)@, username@, password_hash@, now)]
                    0 <= now && final(self)@ == create_user_model(
                        old(self)@,
                        username@,
                        password_hash@,
                        now,
                    ).0 && create_user_model(old(self)@, username@, password_hash@, now).1
                        == Ok::<crate::auth::models::UserModel, Seq<char>>(u@))
                &&& (r matches Err(m) ==> final(self)@ == old(self)@ && (old(
                    self,
                )@.users.contains_key(username@) ==> m@ == "Username already exists"@))
            }),
    {
        let now = clock::now_unix_seconds();
        let r = match &mut self.backend {
            Store::InMemory(b) => b.create_user_at(username, password_hash, now),
            Store::SQLite(b) => b.create_user_at(username, password_hash, now),
            Store::Redis(b) => b.create_user_at(username, password_hash, now),
            Store::DocumentStore(b) => b.create_user_at(username, password_hash, now),
        };
        proof {
            if old(self).is_in_memory() {
                if r is Ok {
                    assert(0 <= now as int && self@ == create_user_model(
                        old(self)@,
                        username@,
                        password_hash@,
                        now as int,
                    ).0 && create_user_model(old(self)@, username@, password_hash@, now as int).1
                        == Ok::<crate::auth::models::UserModel, Seq<char>>(r->Ok_0@));
                } else {
                    assert(self@ == old(self)@);
                    if old(self)@.users.contains_key(username@) {
                        assert(r->Err_0@ == "Username already exists"@);
                    }
                }
            }
        }
        r
    }

    /// Look a user up by name; absence is not an error.
    pub fn get_user_by_username(&mut self, username: &str) -> (r: Result<Option<User>, String>)
        requires
            old(self).inv(),
        ensures
            final(self).inv(),
            final(self).is_in_memory() == old(self).is_in_memory(),
            final(self)@ == old(self)@,
            r matches Ok(Some(u)) ==> old(self)@.users.contains_key(username@) && u@ == old(
                self,
            )@.users[username@] && u.username@ == username@,
            r matches Ok(None) ==> !old(self)@.users.contains_key(username@),
            old(self).is_in_memory() ==> r is Ok,
    {
        match &mut self.backend {
            Store::InMemory(b) => b.get_user_by_username(username),
            Store::SQLite(b) => b.get_user_by_username(username),
            Store::Redis(b) => b.get_user_by_username(username),
            Store::DocumentStore(b) => b.get_user_by_username(username),
        }
    }

    /// Create a session for an existing user, under the given token,
    /// expiring at `expires_at`.
    pub fn create_session(&mut self, token: &str, user_id: i64, expires_at: i64) -> (r: Result<
        (),
        String,
    >)
        requires
            old(self).inv(),
        ensures
            final(self).inv(),
            final(self).is_in_memory() == old(self).is_in_memory(),
            final(self)@.users == old(self)@.users,
            r is Ok ==> exists|s: SessionModel|
                #![auto]
                final(self)@.sessions == old(self)@.sessions.insert(token@, s) && s.token
                    == token@ && s.user_id == user_id as int && s.expires_at == expires_at as int
                    && 0 <= s.created_at,
            ((old(self).is_in_memory() || old(self).is_sqlite() || old(
                self,
            ).is_document_store()) && (r matches Err(m) && m@
                == "User not found"@)) ==> forall|k: Seq<char>|
                old(self)@.users.contains_key(k) ==> (#[trigger] old(self)@.users[k]).id
                    != user_id as int,
            old(self).is_in_memory() ==> exists|now: int|
                #![trigger create_session_model(old(self)@, token@, user_id as int, expires_at as int, now)]
                0 <= now && ({
                    let (m2, res) = create_session_model(
                        old(self)@,
                        token@,
                        user_id as int,
                        expires_at as int,
                        now,
                    );
                    final(self)@ == m2 && (r is Ok <==> res is Ok) && (r matches Err(m) ==> m@
                        == res->Err_0)
                }),
    {
        let now = clock::now_unix_seconds();
        let stored = match &mut self.backend {
            Store::InMemory(b) => b.create_session_at(token, user_id, expires_at, now),
            Store::SQLite(b) => b.create_session_at(token, user_id, expires_at, now),
            Store::Redis(b) => b.create_session_at(token, user_id, expires_at, now),
            Store::DocumentStore(b) => b.create_session_at(token, user_id, expires_at, now),
        };
        match stored {
            Ok(sess) => {
                proof {
                    assert(self@.sessions == old(self)@.sessions.insert(token@, sess@)
                        && sess@.token == token@ && sess@.user_id == user_id as int
                        && sess@.expires_at == expires_at as int && 0 <= sess@.created_at);
                }
                Ok(())
            },
            Err(e) => Err(e),
        }
    }

    /// Look a session up.  Whatever the engine's own eviction does, a
    /// session that is not live at the time of the call is never
    /// returned (each adapter's `get_session_at` states this against the
    /// clock reading it was given), and nothing is ever added by a
    /// lookup.
    pub fn get_session(&mut self, token: &str) -> (r: Result<Option<Session>, String>)
        requires
            old(self).inv(),
        ensures
            final(self).inv(),
            final(self).is_in_memory() == old(self).is_in_memory(),
            final(self)@.users == old(self)@.users,
            final(self)@.sessions == old(self)@.sessions || final(self)@.sessions == old(
                self,
            )@.sessions.remove(token@),
            r matches Ok(Some(s)) ==> s@.expires_at > 0,
            old(self).is_in_memory() ==> r is Ok && exists|now: int|
                #![trigger get_session_model(old(self)@, token@, now)]
                0 <= now && ({
                    let (m2, res) = get_session_model(old(self)@, token@, now);
                    final(self)@ == m2 && (match r {
                        Ok(Some(s)) => res == Some(s@),
                        Ok(None) => res is None,
                        Err(_) => false,
                    })
                }),
    {
        let now = clock::now_unix_seconds();
        let r = match &mut self.backend {
            Store::InMemory(b) => b.get_session_at(token, now),
            Store::SQLite(b) => b.get_session_at(token, now),
            Store::Redis(b) => b.get_session_at(token, now),
            Store::DocumentStore(b) => b.get_session_at(token, now),
        };
        proof {
            if old(self).is_in_memory() {
                assert(0 <= now as int);
                let (m2, res) = get_session_model(old(self)@, token@, now as int);
                assert(self@ == m2);
            }
        }
        r
    }

    /// Delete a session; deleting an absent token is not an error.
    pub fn delete_session(&mut self, token: &str) -> (r: Result<(), String>)
        requires
            old(self).inv(),
        ensures
            final(self).inv(),
            final(self).is_in_memory() == old(self).is_in_memory(),
            final(self)@.users == old(self)@.users,
            final(self)@.next_id == old(self)@.next_id,
            r is Ok ==> final(self)@.sessions == old(self)@.sessions.remove(token@),
            r is Err ==> final(self)@.sessions == old(self)@.sessions || final(self)@.sessions
                == old(self)@.sessions.remove(token@),
            old(self).is_in_memory() ==> r is Ok && final(self)@ == delete_session_model(
                old(self)@,
                token@,
            ),
    {
        match &mut self.backend {
            Store::InMemory(b) => b.delete_session(token),
            Store::SQLite(b) => b.delete_session(token),
            Store::Redis(b) => b.delete_session(token),
            Store::DocumentStore(b) => b.delete_session(token),
        }
    }

    /// Sweep expired sessions; a no-op where the engine self-expires.
    /// Nothing is ever added, and no user record is touched.
    pub fn delete_expired_sessions(&mut self) -> (r: Result<(), String>)
        requires
            old(self).inv(),
        ensures
            final(self).inv(),
            final(self).is_in_memory() == old(self).is_in_memory(),
            final(self)@.users == old(self)@.users,
            forall|t: Seq<char>|
                final(self)@.sessions.contains_key(t) ==> old(self)@.sessions.contains_key(t)
                    && (#[trigger] final(self)@.sessions[t]) == old(self)@.sessions[t],
            old(self).is_in_memory() ==> r is Ok && exists|now: int|
                #![trigger delete_expired_model(old(self)@, now)]
                0 <= now && final(self)@ == delete_expired_model(old(self)@, now),
    {
        let now = clock::now_unix_seconds();
        let r = match &mut self.backend {
            Store::InMemory(b) => b.delete_expired_sessions_at(now),
            Store::SQLite(b) => b.delete_expired_sessions_at(now),
            Store::Redis(b) => b.delete_expired_sessions(),
            Store::DocumentStore(b) => b.delete_expired_sessions(),
        };
        proof {
            if old(self).is_in_memory() {
                assert(0 <= now as int && self@ == delete_expired_model(old(self)@, now as int));
            }
        }
        r
    }
}

} // verus!
