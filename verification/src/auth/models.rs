//! Data models for authentication.

use vstd::prelude::*;

verus! {

/// Mathematical view of a [`User`].
pub ghost struct UserModel {
    /// Unique user identifier
    pub id: int,
    /// Username
    pub username: Seq<char>,
    /// Hashed password
    pub password_hash: Seq<char>,
    /// Account creation timestamp (Unix epoch)
    pub created_at: int,
}

/// User account
#[derive(Debug, Clone)]
pub struct User {
    /// Unique user identifier
    pub id: i64,
    /// Username
    pub username: String,
    /// Hashed password (never serialized in responses)
    pub password_hash: String,
    /// Account creation timestamp (Unix epoch)
    pub created_at: i64,
}

impl View for User {
    type V = UserModel;

    open spec fn view(&self) -> UserModel {
        UserModel {
            id: self.id as int,
            username: self.username@,
            password_hash: self.password_hash@,
            created_at: self.created_at as int,
        }
    }
}

impl User {
    /// A field-for-field copy of this user.
    pub fn duplicate(&self) -> (r: User)
        ensures
            r == *self,
    {
        User {
            id: self.id,
            username: self.username.clone(),
            password_hash: self.password_hash.clone(),
            created_at: self.created_at,
        }
    }
}

/// Mathematical view of a [`Session`].
pub ghost struct SessionModel {
    /// Session token
    pub token: Seq<char>,
    /// User ID associated with this session
    pub user_id: int,
    /// Username for quick access
    pub username: Seq<char>,
    /// Session creation timestamp (Unix epoch)
    pub created_at: int,
    /// Session expiration timestamp (Unix epoch)
    pub expires_at: int,
}

impl SessionModel {
    /// A session is live exactly when it expires after `now`.
    pub open spec fn live_at(self, now: int) -> bool {
        self.expires_at > now
    }
}

/// Active session
#[derive(Debug, Clone)]
pub struct Session {
    /// Session token
    pub token: String,
    /// User ID associated with this session
    pub user_id: i64,
    /// Username for quick access
    pub username: String,
    /// Session creation timestamp (Unix epoch)
    pub created_at: i64,
    /// Session expiration timestamp (Unix epoch)
    pub expires_at: i64,
}

impl View for Session {
    type V = SessionModel;

    open spec fn view(&self) -> SessionModel {
        SessionModel {
            token: self.token@,
            user_id: self.user_id as int,
            username: self.username@,
            created_at: self.created_at as int,
            expires_at: self.expires_at as int,
        }
    }
}

impl Session {
    /// A field-for-field copy of this session.
    pub fn duplicate(&self) -> (r: Session)
        ensures
            r == *self,
    {
        Session {
            token: self.token.clone(),
            user_id: self.user_id,
            username: self.username.clone(),
            created_at: self.created_at,
            expires_at: self.expires_at,
        }
    }
}

/// Mathematical view of a whole authentication store, shared by every
/// backend: the users by username, the sessions by token, and the next
/// user id to assign.
pub ghost struct StoreModel {
    /// Users by username
    pub users: Map<Seq<char>, UserModel>,
    /// Sessions by token
    pub sessions: Map<Seq<char>, SessionModel>,
    /// Next user id to assign
    pub next_id: int,
}

impl StoreModel {
    /// The empty store.
    pub open spec fn empty() -> StoreModel {
        StoreModel {
            users: Map::empty(),
            sessions: Map::empty(),
            next_id: 1,
        }
    }

    /// Well-formedness: usernames key their own records, ids are positive,
    /// below the next id and pairwise distinct, and tokens key their own
    /// sessions.
    pub open spec fn wf(self) -> bool {
        &&& 1 <= self.next_id
        &&& forall|k: Seq<char>|
            self.users.contains_key(k) ==> (#[trigger] self.users[k]).username == k && 1
                <= self.users[k].id < self.next_id
        &&& forall|k1: Seq<char>, k2: Seq<char>|
            self.users.contains_key(k1) && self.users.contains_key(k2) && k1 != k2
                ==> (#[trigger] self.users[k1]).id != (#[trigger] self.users[k2]).id
        &&& forall|t: Seq<char>|
            self.sessions.contains_key(t) ==> (#[trigger] self.sessions[t]).token == t
    }

    /// Some user carries this id.
    pub open spec fn has_user_id(self, id: int) -> bool {
        exists|k: Seq<char>| self.users.contains_key(k) && (#[trigger] self.users[k]).id == id
    }

    /// The username of the user carrying this id (meaningful when
    /// `has_user_id` holds; unique in a well-formed store).
    pub open spec fn username_of_id(self, id: int) -> Seq<char> {
        choose|k: Seq<char>| self.users.contains_key(k) && (#[trigger] self.users[k]).id == id
    }
}

/// What creating a user does to a store: a conflict if the username is
/// taken, else a fresh record under the next id.
pub open spec fn create_user_model(m: StoreModel, username: Seq<char>, hash: Seq<char>, now: int)
    -> (StoreModel, Result<UserModel, Seq<char>>) {
    if m.users.contains_key(username) {
        (m, Err("Username already exists"@))
    } else {
        let u = UserModel { id: m.next_id, username, password_hash: hash, created_at: now };
        (
            StoreModel { users: m.users.insert(username, u), next_id: m.next_id + 1, ..m },
            Ok(u),
        )
    }
}

/// What creating a session does to a store: refused when no user carries
/// the id; otherwise the session is stored under its token (replacing any
/// session under the same token), with the username copied in.
pub open spec fn create_session_model(
    m: StoreModel,
    token: Seq<char>,
    user_id: int,
    expires_at: int,
    now: int,
) -> (StoreModel, Result<(), Seq<char>>) {
    if m.has_user_id(user_id) {
        let s = SessionModel {
            token,
            user_id,
            username: m.username_of_id(user_id),
            created_at: now,
            expires_at,
        };
        (StoreModel { sessions: m.sessions.insert(token, s), ..m }, Ok(()))
    } else {
        (m, Err("User not found"@))
    }
}

/// What looking a session up does to a store: a live session is returned;
/// a dead one is dropped and none is returned.
pub open spec fn get_session_model(m: StoreModel, token: Seq<char>, now: int) -> (
    StoreModel,
    Option<SessionModel>,
) {
    if m.sessions.contains_key(token) {
        if m.sessions[token].live_at(now) {
            (m, Some(m.sessions[token]))
        } else {
            (StoreModel { sessions: m.sessions.remove(token), ..m }, None)
        }
    } else {
        (m, None)
    }
}

/// What deleting a session does to a store; deleting an absent token
/// changes nothing.
pub open spec fn delete_session_model(m: StoreModel, token: Seq<char>) -> StoreModel {
    StoreModel { sessions: m.sessions.remove(token), ..m }
}

/// What the expiry sweep does to a store: only live sessions stay.
pub open spec fn delete_expired_model(m: StoreModel, now: int) -> StoreModel {
    StoreModel {
        sessions: Map::new(
            |t: Seq<char>| m.sessions.contains_key(t) && m.sessions[t].live_at(now),
            |t: Seq<char>| m.sessions[t],
        ),
        ..m
    }
}

/// Registration request
#[derive(Debug, Clone)]
pub struct RegisterRequest {
    /// Desired username
    pub username: String,
    /// User password (will be hashed)
    pub password: String,
}

/// Login request
#[derive(Debug, Clone)]
pub struct LoginRequest {
    /// Username
    pub username: String,
    /// User password
    pub password: String,
}

/// Mathematical view of an [`AuthResponse`].
pub ghost struct AuthResponseModel {
    /// Whether the operation succeeded
    pub success: bool,
    /// Response message
    pub message: Seq<char>,
    /// Session token (if any)
    pub token: Option<Seq<char>>,
    /// Username (if any)
    pub username: Option<Seq<char>>,
}

/// Authentication response
#[derive(Debug, Clone)]
pub struct AuthResponse {
    /// Whether the operation succeeded
    pub success: bool,
    /// Response message
    pub message: String,
    /// Session token (if successful)
    pub token: Option<String>,
    /// Username (if successful)
    pub username: Option<String>,
}

impl View for AuthResponse {
    type V = AuthResponseModel;

    open spec fn view(&self) -> AuthResponseModel {
        AuthResponseModel {
            success: self.success,
            message: self.message@,
            token: match self.token {
                Some(t) => Some(t@),
                None => None,
            },
            username: match self.username {
                Some(u) => Some(u@),
                None => None,
            },
        }
    }
}

} // verus!
