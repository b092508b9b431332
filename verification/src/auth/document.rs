//! Document-store storage backend over MongoDB.  Users, sessions and the
//! id counter live in the `users`, `sessions` and `counters` collections;
//! user ids come from an atomic find-and-increment on a single counter
//! document, the only adapter with a fully race-free id assignment.
//! Session writes are upserts keyed by token, and sessions carry a native
//! time-to-live index on their expiry date; lookups still check expiry
//! manually, because background eviction is not instantaneous.  One
//! client is constructed per backend and shared by every call.

use vstd::prelude::*;
use crate::auth::models::{Session, SessionModel, StoreModel, User, UserModel};

verus! {

#[verifier::external_type_specification]
#[verifier::external_body]
#[verifier::reject_recursive_types(T)]
pub struct ExMongoCollection<T: Send + Sync>(mongodb::sync::Collection<T>);

#[verifier::external_type_specification]
#[verifier::external_body]
pub struct ExBsonDocument(mongodb::bson::Document);

/// The documents of the `users` collection, keyed by username.
pub uninterp spec fn mongo_users(c: mongodb::sync::Collection<mongodb::bson::Document>) -> Map<
    Seq<char>,
    UserModel,
>;

/// The documents of the `sessions` collection, keyed by token, as written
/// by this process and not yet deleted.  The engine may evict an expired
/// document at any time, so a read may miss a document that is here.
pub uninterp spec fn mongo_sessions(c: mongodb::sync::Collection<mongodb::bson::Document>) -> Map<
    Seq<char>,
    SessionModel,
>;

/// The value of the user-id counter document in the `counters`
/// collection (zero before the first increment creates it).
pub uninterp spec fn mongo_counter(
    c: mongodb::sync::Collection<mongodb::bson::Document>,
) -> int;

/// How an insert into `users` failed.
enum InsertDocError {
    /// The unique index on `username` rejected the document.
    Duplicate,
    /// Any other engine failure.
    Other(String),
}

/// Relies on mongodb::sync::Client::with_uri_str, Client::database and
/// Database::run_command with a ping: yields handles to the `users`,
/// `sessions` and `counters` collections of the database named in the
/// URL (or of `geekcraft` when the URL names none), after one successful
/// round trip to the server.
#[verifier::external_body]
#[allow(clippy::type_complexity)]
fn mongo_connect(url: &str) -> (r: Result<
    (
        mongodb::sync::Collection<mongodb::bson::Document>,
        mongodb::sync::Collection<mongodb::bson::Document>,
        mongodb::sync::Collection<mongodb::bson::Document>,
    ),
    String,
>) {
    let client = mongodb::sync::Client::with_uri_str(url)
        .map_err(|e| format!("Failed to connect to MongoDB: {}", e))?;
    let db = client
        .default_database()
        .unwrap_or_else(|| client.database("geekcraft"));
    let mut ping = mongodb::bson::Document::new();
    ping.insert("ping", 1i32);
    db.run_command(ping).run().map_err(|e| format!("MongoDB ping failed: {}", e))?;
    Ok((db.collection("users"), db.collection("sessions"), db.collection("counters")))
}

/// Relies on Collection::create_index with a unique index on `username`:
/// index creation changes no documents.
#[verifier::external_body]
fn mongo_init_user_index(c: &mut mongodb::sync::Collection<mongodb::bson::Document>) -> (r:
    Result<(), String>)
    ensures
        mongo_users(*final(c)) == mongo_users(*old(c)),
{
    let mut keys = mongodb::bson::Document::new();
    keys.insert("username", 1i32);
    let options = mongodb::options::IndexOptions::builder().unique(true).build();
    let index = mongodb::IndexModel::builder().keys(keys).options(options).build();
    c.create_index(index).run().map(|_| ()).map_err(|e| format!("MongoDB error: {}", e))
}

/// Relies on Collection::create_index with an `expireAfterSeconds: 0`
/// index on the `expires_at` date field: the engine deletes each session
/// document some time after that date passes; index creation changes no
/// documents.
#[verifier::external_body]
fn mongo_init_session_ttl_index(
    c: &mut mongodb::sync::Collection<mongodb::bson::Document>,
) -> (r: Result<(), String>)
    ensures
        mongo_sessions(*final(c)) == mongo_sessions(*old(c)),
{
    let mut keys = mongodb::bson::Document::new();
    keys.insert("expires_at", 1i32);
    let options = mongodb::options::IndexOptions::builder()
        .expire_after(std::time::Duration::from_secs(0))
        .build();
    let index = mongodb::IndexModel::builder().keys(keys).options(options).build();
    c.create_index(index).run().map(|_| ()).map_err(|e| format!("MongoDB error: {}", e))
}

/// Relies on Collection::find_one_and_update with `$inc` and upsert on
/// the single counter document: one atomic find-and-increment; the
/// returned value is the counter after the increment.  On an error the
/// counter has moved by at most the one increment, and nothing else
/// changes.
#[verifier::external_body]
fn mongo_next_user_id(c: &mut mongodb::sync::Collection<mongodb::bson::Document>) -> (r: Result<
    i64,
    String,
>)
    ensures
        r matches Ok(v) ==> v == mongo_counter(*old(c)) + 1 && mongo_counter(*final(c)) == v,
        r is Err ==> mongo_counter(*old(c)) <= mongo_counter(*final(c)) <= mongo_counter(*old(c))
            + 1,
        r matches Err(m) ==> m@ != "Username already exists"@,
{
    let mut filter = mongodb::bson::Document::new();
    filter.insert("_id", "user_id");
    let mut inc = mongodb::bson::Document::new();
    inc.insert("seq", 1i64);
    let mut update = mongodb::bson::Document::new();
    update.insert("$inc", inc);
    let found = c.find_one_and_update(filter, update).upsert(true).return_document(
        mongodb::options::ReturnDocument::After,
    ).run().map_err(|e| format!("MongoDB error: {}", e))?;
    match found {
        Some(doc) => doc.get_i64("seq").map_err(|e| format!("MongoDB error: {}", e)),
        None => Err("MongoDB error: counter document missing".to_string()),
    }
}

/// Relies on Collection::insert_one under the unique index on
/// `username`: the document lands exactly when the username is free, is
/// refused with a duplicate-key error exactly when it is taken, and a
/// failed insert has no effect.  Other engine errors are reported under
/// a "MongoDB error: " prefix, so they never collide with the conflict
/// message.
#[verifier::external_body]
fn mongo_insert_user(
    c: &mut mongodb::sync::Collection<mongodb::bson::Document>,
    user: &User,
) -> (r: Result<(), InsertDocError>)
    ensures
        r is Ok ==> !mongo_users(*old(c)).contains_key(user.username@) && mongo_users(*final(c))
            == mongo_users(*old(c)).insert(user.username@, user@),
        r is Err ==> mongo_users(*final(c)) == mongo_users(*old(c)),
        r matches Err(InsertDocError::Duplicate) ==> mongo_users(*old(c)).contains_key(
            user.username@,
        ),
        r matches Err(InsertDocError::Other(m)) ==> m@ != "Username already exists"@,
        mongo_users(*old(c)).contains_key(user.username@) ==> r is Err,
{
    let mut doc = mongodb::bson::Document::new();
    doc.insert("id", user.id);
    doc.insert("username", user.username.as_str());
    doc.insert("password_hash", user.password_hash.as_str());
    doc.insert("created_at", user.created_at);
    match c.insert_one(doc).run() {
        Ok(_) => Ok(()),
        Err(e) => match *e.kind {
            mongodb::error::ErrorKind::Write(mongodb::error::WriteFailure::WriteError(
                ref we,
            )) if we.code == 11000 => Err(InsertDocError::Duplicate),
            _ => Err(InsertDocError::Other(format!("MongoDB error: {}", e))),
        },
    }
}

/// Read the user fields out of a stored document.
#[verifier::external_body]
fn user_of_doc(doc: &mongodb::bson::Document) -> (r: Result<User, String>) {
    Ok(User {
        id: doc.get_i64("id").map_err(|e| format!("MongoDB error: {}", e))?,
        username: doc.get_str("username").map_err(|e| format!("MongoDB error: {}", e))?.to_string(),
        password_hash: doc.get_str("password_hash").map_err(
            |e| format!("MongoDB error: {}", e),
        )?.to_string(),
        created_at: doc.get_i64("created_at").map_err(|e| format!("MongoDB error: {}", e))?,
    })
}

/// Relies on Collection::find_one with a `username` filter: returns the
/// document under that username, if any; reads change nothing.
#[verifier::external_body]
fn mongo_find_user(
    c: &mut mongodb::sync::Collection<mongodb::bson::Document>,
    username: &str,
) -> (r: Result<Option<User>, String>)
    ensures
        mongo_users(*final(c)) == mongo_users(*old(c)),
        r matches Ok(Some(u)) ==> mongo_users(*old(c)).contains_key(username@) && u@
            == mongo_users(*old(c))[username@] && u.username@ == username@,
        r matches Ok(None) ==> !mongo_users(*old(c)).contains_key(username@),
{
    let mut filter = mongodb::bson::Document::new();
    filter.insert("username", username);
    let found = c.find_one(filter).run().map_err(|e| format!("MongoDB error: {}", e))?;
    match found {
        Some(doc) => user_of_doc(&doc).map(Some),
        None => Ok(None),
    }
}

/// Relies on Collection::find_one with an `id` filter: returns a
/// document carrying that id if one exists, and none exactly when no
/// stored user carries it; reads change nothing.  Engine errors are
/// reported under a "MongoDB error: " prefix, so they never collide with
/// the "User not found" sentinel.
#[verifier::external_body]
fn mongo_find_user_by_id(
    c: &mut mongodb::sync::Collection<mongodb::bson::Document>,
    user_id: i64,
) -> (r: Result<Option<User>, String>)
    ensures
        mongo_users(*final(c)) == mongo_users(*old(c)),
        r matches Ok(Some(u)) ==> mongo_users(*old(c)).contains_key(u.username@) && u@
            == mongo_users(*old(c))[u.username@] && u.id == user_id,
        r matches Ok(None) ==> forall|k: Seq<char>|
            mongo_users(*old(c)).contains_key(k) ==> (#[trigger] mongo_users(*old(c))[k]).id
                != user_id as int,
        r matches Err(m) ==> m@ != "User not found"@,
{
    let mut filter = mongodb::bson::Document::new();
    filter.insert("id", user_id);
    let found = c.find_one(filter).run().map_err(|e| format!("MongoDB error: {}", e))?;
    match found {
        Some(doc) => user_of_doc(&doc).map(Some),
        None => Ok(None),
    }
}

/// Relies on Collection::replace_one with upsert, keyed by token: the
/// session document is inserted or replaced in one operation, so a
/// colliding token replaces rather than duplicates; a failed write has
/// either applied or not.  Engine errors are reported under a "MongoDB
/// error: " prefix, so they never collide with the "User not found"
/// sentinel.  The expiry lands both as a plain number (read back by
/// lookups) and as the date the time-to-live index watches.
#[verifier::external_body]
fn mongo_upsert_session(
    c: &mut mongodb::sync::Collection<mongodb::bson::Document>,
    session: &Session,
) -> (r: Result<(), String>)
    ensures
        r is Ok ==> mongo_sessions(*final(c)) == mongo_sessions(*old(c)).insert(
            session.token@,
            session@,
        ),
        r is Err ==> mongo_sessions(*final(c)) == mongo_sessions(*old(c)) || mongo_sessions(
            *final(c),
        ) == mongo_sessions(*old(c)).insert(session.token@, session@),
        r matches Err(m) ==> m@ != "User not found"@,
{
    let mut filter = mongodb::bson::Document::new();
    filter.insert("token", session.token.as_str());
    let mut doc = mongodb::bson::Document::new();
    doc.insert("token", session.token.as_str());
    doc.insert("user_id", session.user_id);
    doc.insert("username", session.username.as_str());
    doc.insert("created_at", session.created_at);
    doc.insert("expires_at_secs", session.expires_at);
    doc.insert(
        "expires_at",
        mongodb::bson::DateTime::from_millis(session.expires_at.saturating_mul(1000)),
    );
    c.replace_one(filter, doc).upsert(true).run().map(|_| ()).map_err(
        |e| format!("MongoDB error: {}", e),
    )
}

/// Relies on Collection::find_one with a `token` filter: returns the
/// session document under that token if it is present and not yet
/// evicted; reads change nothing.  An absent result says nothing, since
/// the engine evicts expired documents on its own.
#[verifier::external_body]
fn mongo_find_session(
    c: &mut mongodb::sync::Collection<mongodb::bson::Document>,
    token: &str,
) -> (r: Result<Option<Session>, String>)
    ensures
        mongo_sessions(*final(c)) == mongo_sessions(*old(c)),
        r matches Ok(Some(s)) ==> mongo_sessions(*old(c)).contains_key(token@) && mongo_sessions(
            *old(c),
        )[token@] == s@,
{
    let mut filter = mongodb::bson::Document::new();
    filter.insert("token", token);
    let found = c.find_one(filter).run().map_err(|e| format!("MongoDB error: {}", e))?;
    let doc = match found {
        Some(doc) => doc,
        None => return Ok(None),
    };
    Ok(Some(Session {
        token: doc.get_str("token").map_err(|e| format!("MongoDB error: {}", e))?.to_string(),
        user_id: doc.get_i64("user_id").map_err(|e| format!("MongoDB error: {}", e))?,
        username: doc.get_str("username").map_err(|e| format!("MongoDB error: {}", e))?.to_string(),
        created_at: doc.get_i64("created_at").map_err(|e| format!("MongoDB error: {}", e))?,
        expires_at: doc.get_i64("expires_at_secs").map_err(|e| format!("MongoDB error: {}", e))?,
    }))
}

/// Relies on Collection::delete_one with a `token` filter: removes the
/// document under that token; deleting an absent token succeeds; on an
/// error the document is either gone or untouched.
#[verifier::external_body]
fn mongo_delete_session(
    c: &mut mongodb::sync::Collection<mongodb::bson::Document>,
    token: &str,
) -> (r: Result<(), String>)
    ensures
        r is Ok ==> mongo_sessions(*final(c)) == mongo_sessions(*old(c)).remove(token@),
        r is Err ==> mongo_sessions(*final(c)) == mongo_sessions(*old(c)) || mongo_sessions(
            *final(c),
        ) == mongo_sessions(*old(c)).remove(token@),
{
    let mut filter = mongodb::bson::Document::new();
    filter.insert("token", token);
    c.delete_one(filter).run().map(|_| ()).map_err(|e| format!("MongoDB error: {}", e))
}

/// Document-store storage backend.
pub struct DocumentStoreBackend {
    users: mongodb::sync::Collection<mongodb::bson::Document>,
    sessions: mongodb::sync::Collection<mongodb::bson::Document>,
    counters: mongodb::sync::Collection<mongodb::bson::Document>,
}

impl View for DocumentStoreBackend {
    type V = StoreModel;

    closed spec fn view(&self) -> StoreModel {
        StoreModel {
            users: mongo_users(self.users),
            sessions: mongo_sessions(self.sessions),
            next_id: mongo_counter(self.counters) + 1,
        }
    }
}

impl DocumentStoreBackend {
    /// Connect, ping, and make sure the uniqueness and time-to-live
    /// indexes exist.  An unreachable server fails here, before any
    /// operation is served.
    pub fn new(url: &str) -> (r: Result<Self, String>) {
        let (mut users, mut sessions, counters) = match mongo_connect(url) {
            Ok(t) => t,
            Err(e) => {
                return Err(e);
            },
        };
        match mongo_init_user_index(&mut users) {
            Ok(()) => (),
            Err(e) => {
                return Err(e);
            },
        }
        match mongo_init_session_ttl_index(&mut sessions) {
            Ok(()) => (),
            Err(e) => {
                return Err(e);
            },
        }
        Ok(DocumentStoreBackend { users, sessions, counters })
    }

    /// Create a user: one atomic find-and-increment assigns the id, and
    /// the unique index turns duplicate usernames into the canonical
    /// conflict message.
    pub fn create_user_at(&mut self, username: &str, password_hash: &str, now: i64) -> (r: Result<
        User,
        String,
    >)
        ensures
            final(self)@.sessions == old(self)@.sessions,
            r matches Ok(u) ==> !old(self)@.users.contains_key(username@) && final(self)@.users
                == old(self)@.users.insert(username@, u@) && u.username@ == username@
                && u.password_hash@ == password_hash@ && u@.created_at == now as int,
            r matches Err(m) && m@ == "Username already exists"@ ==> old(
                self,
            )@.users.contains_key(username@),
            old(self)@.users.contains_key(username@) ==> r is Err,
    {
        let user_id = match mongo_next_user_id(&mut self.counters) {
            Ok(v) => v,
            Err(e) => {
                return Err(e);
            },
        };

        let user = User {
            id: user_id,
            username: username.to_owned(),
            password_hash: password_hash.to_owned(),
            created_at: now,
        };

        match mongo_insert_user(&mut self.users, &user) {
            Ok(()) => Ok(user),
            Err(InsertDocError::Duplicate) => Err("Username already exists".to_owned()),
            Err(InsertDocError::Other(e)) => Err(e),
        }
    }

    /// Look a user up by name.
    pub fn get_user_by_username(&mut self, username: &str) -> (r: Result<Option<User>, String>)
        ensures
            final(self)@ == old(self)@,
            r matches Ok(Some(u)) ==> old(self)@.users.contains_key(username@) && u@ == old(
                self,
            )@.users[username@] && u.username@ == username@,
            r matches Ok(None) ==> !old(self)@.users.contains_key(username@),
    {
        mongo_find_user(&mut self.users, username)
    }

    /// Create a session: fetch the user document by id to copy the
    /// username, then upsert the session under its token.
    pub fn create_session_at(&mut self, token: &str, user_id: i64, expires_at: i64, now: i64)
        -> (r: Result<Session, String>)
        ensures
            final(self)@.users == old(self)@.users,
            r matches Ok(sess) ==> final(self)@.sessions == old(self)@.sessions.insert(
                token@,
                sess@,
            ) && sess.token@ == token@ && sess.user_id == user_id && sess.expires_at == expires_at
                && sess.created_at == now,
            r matches Err(m) && m@ == "User not found"@ ==> forall|k: Seq<char>|
                old(self)@.users.contains_key(k) ==> (#[trigger] old(self)@.users[k]).id
                    != user_id as int,
    {
        let user = match mongo_find_user_by_id(&mut self.users, user_id) {
            Ok(Some(u)) => u,
            Ok(None) => {
                return Err("User not found".to_owned());
            },
            Err(e) => {
                return Err(e);
            },
        };

        let session = Session {
            token: token.to_owned(),
            user_id,
            username: user.username,
            created_at: now,
            expires_at,
        };
        match mongo_upsert_session(&mut self.sessions, &session) {
            Ok(()) => Ok(session),
            Err(e) => Err(e),
        }
    }

    /// Look a session up: the engine evicts expired documents on its
    /// own, but eviction is not instantaneous, so the expiry check is
    /// repeated here and a dead session is dropped.
    pub fn get_session_at(&mut self, token: &str, now: i64) -> (r: Result<Option<Session>, String>)
        ensures
            final(self)@.users == old(self)@.users,
            final(self)@.sessions == old(self)@.sessions || final(self)@.sessions == old(
                self,
            )@.sessions.remove(token@),
            r matches Ok(Some(s)) ==> s@.expires_at > now as int,
    {
        let found = match mongo_find_session(&mut self.sessions, token) {
            Ok(f) => f,
            Err(e) => {
                return Err(e);
            },
        };
        match found {
            Some(session) => {
                if session.expires_at > now {
                    Ok(Some(session))
                } else {
                    match mongo_delete_session(&mut self.sessions, token) {
                        Ok(()) => Ok(None),
                        Err(_) => Ok(None),
                    }
                }
            },
            None => Ok(None),
        }
    }

    /// Delete a session; deleting an absent token is not an error.
    pub fn delete_session(&mut self, token: &str) -> (r: Result<(), String>)
        ensures
            final(self)@.users == old(self)@.users,
            final(self)@.next_id == old(self)@.next_id,
            r is Ok ==> final(self)@.sessions == old(self)@.sessions.remove(token@),
            r is Err ==> final(self)@.sessions == old(self)@.sessions || final(self)@.sessions
                == old(self)@.sessions.remove(token@),
    {
        mongo_delete_session(&mut self.sessions, token)
    }

    /// The engine deletes expired documents through the time-to-live
    /// index on its own, so the manual sweep has nothing to do.
    pub fn delete_expired_sessions(&mut self) -> (r: Result<(), String>)
        ensures
            final(self)@ == old(self)@,
            r is Ok,
    {
        Ok(())
    }
}

} // verus!
