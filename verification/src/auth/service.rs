//! Authentication service: input validation, password hashing, token
//! issuance and the generic-failure messaging, built on the database
//! facade.  The exact behavior over the store model is pinned down by the
//! `spec_register` / `spec_login` / `spec_logout` transitions, and the
//! laws at the bottom of this file are proved about those transitions.

use vstd::prelude::*;
use vstd::string::StringExecFns;
use crate::auth::database::AuthDatabase;
use crate::auth::models::{
    create_session_model, create_user_model, delete_expired_model, delete_session_model,
    get_session_model, AuthResponse, AuthResponseModel, Session, SessionModel, StoreModel,
};
use crate::clock;
use crate::strutil::chars_vec;

verus! {

/// Session duration in seconds (24 hours)
pub const SESSION_DURATION: i64 = 86400;

/// What bcrypt's password check returns: a function of the password and
/// the hash alone (an error for a malformed hash).
pub uninterp spec fn bcrypt_verify_of(password: Seq<char>, hash: Seq<char>) -> Option<bool>;

/// Relies on bcrypt::verify: whether the password matches the hash, or an
/// error on a malformed hash; the outcome depends on the two arguments
/// alone.
#[verifier::external_body]
fn verify_password(password: &str, hash: &str) -> (r: Result<bool, String>)
    ensures
        r matches Ok(b) ==> bcrypt_verify_of(password@, hash@) == Some(b),
        r is Err ==> bcrypt_verify_of(password@, hash@) is None,
{
    bcrypt::verify(password, hash).map_err(|e| format!("Password verification error: {}", e))
}

/// Relies on bcrypt::hash with DEFAULT_COST: an adaptive salted hash of
/// the password; bcrypt::verify accepts the password against any hash it
/// produces.
#[verifier::external_body]
fn hash_password(password: &str) -> (r: Result<String, String>)
    ensures
        r matches Ok(h) ==> bcrypt_verify_of(password@, h@) == Some(true),
{
    bcrypt::hash(password, bcrypt::DEFAULT_COST).map_err(|e| format!("Failed to hash password: {}", e))
}

/// Relies on uuid::Uuid::new_v4 and its Display form: a random 128-bit
/// value rendered in canonical hyphenated hexadecimal form, 36 characters.
#[verifier::external_body]
fn new_session_token() -> (r: String)
    ensures
        r@.len() == 36,
{
    uuid::Uuid::new_v4().to_string()
}

/// A username character: ASCII alphanumeric, underscore or hyphen.
pub open spec fn allowed_username_char(c: char) -> bool {
    let u = c as u32;
    (48 <= u <= 57) || (65 <= u <= 90) || (97 <= u <= 122) || c == '_' || c == '-'
}

/// The rejection message for invalid registration input, if any, in the
/// order the rules are checked: username length, username characters,
/// password length.
pub open spec fn register_reject(username: Seq<char>, password: Seq<char>) -> Option<Seq<char>> {
    if !(3 <= username.len() <= 32) {
        Some("Username must be between 3 and 32 characters"@)
    } else if !(forall|i: int|
        0 <= i < username.len() ==> allowed_username_char(#[trigger] username[i])) {
        Some("Username can only contain letters, numbers, underscore, and hyphen"@)
    } else if password.len() < 6 {
        Some("Password must be at least 6 characters"@)
    } else {
        None
    }
}

/// A failure response with a message and nothing else.
pub open spec fn fail_resp(message: Seq<char>) -> AuthResponseModel {
    AuthResponseModel { success: false, message, token: None, username: None }
}

/// What registration does to a store: reject bad input, fail on a hashing
/// error (`hashed` is what the hash function returned), otherwise create
/// the user and report success.
pub open spec fn spec_register(
    m: StoreModel,
    username: Seq<char>,
    password: Seq<char>,
    hashed: Option<Seq<char>>,
    now: int,
) -> (StoreModel, AuthResponseModel) {
    if register_reject(username, password) is Some {
        (m, fail_resp(register_reject(username, password)->Some_0))
    } else {
        match hashed {
            None => (m, fail_resp("Internal error"@)),
            Some(h) => {
                let (m2, res) = create_user_model(m, username, h, now);
                match res {
                    Ok(u) => (
                        m2,
                        AuthResponseModel {
                            success: true,
                            message: "User "@ + username + " registered successfully"@,
                            token: None,
                            username: Some(username),
                        },
                    ),
                    Err(e) => (m, fail_resp(e)),
                }
            },
        }
    }
}

/// What login does to a store: an unknown username and a failed password
/// check fail with one and the same message; a successful check mints a
/// session under `token` expiring 24 hours after `now` (`snow` is the
/// store's own clock reading for the session's creation stamp).
pub open spec fn spec_login(
    m: StoreModel,
    username: Seq<char>,
    password: Seq<char>,
    token: Seq<char>,
    now: int,
    snow: int,
) -> (StoreModel, AuthResponseModel) {
    if !m.users.contains_key(username) {
        (m, fail_resp("Invalid username or password"@))
    } else {
        let u = m.users[username];
        match bcrypt_verify_of(password, u.password_hash) {
            Some(b) => if b {
                if now + SESSION_DURATION <= i64::MAX {
                    let (m2, res) = create_session_model(
                        m,
                        token,
                        u.id,
                        now + SESSION_DURATION,
                        snow,
                    );
                    match res {
                        Ok(_) => (
                            m2,
                            AuthResponseModel {
                                success: true,
                                message: "Login successful"@,
                                token: Some(token),
                                username: Some(u.username),
                            },
                        ),
                        Err(_) => (m2, fail_resp("Internal error"@)),
                    }
                } else {
                    (m, fail_resp("Internal error"@))
                }
            } else {
                (m, fail_resp("Invalid username or password"@))
            },
            None => (m, fail_resp("Internal error"@)),
        }
    }
}

/// What logout does to a store: the session under the token leaves (a
/// token that was never issued leaves nothing), and logout always
/// succeeds.
pub open spec fn spec_logout(m: StoreModel, token: Seq<char>) -> (StoreModel, AuthResponseModel) {
    (
        delete_session_model(m, token),
        AuthResponseModel {
            success: true,
            message: "Logout successful"@,
            token: None,
            username: None,
        },
    )
}

/// Authentication service.
pub struct AuthService {
    db: AuthDatabase,
}

impl View for AuthService {
    type V = StoreModel;

    closed spec fn view(&self) -> StoreModel {
        self.db@
    }
}

impl AuthService {
    /// The wrapped facade's invariant.
    pub closed spec fn inv(&self) -> bool {
        self.db.inv()
    }

    /// The wrapped facade runs on the in-memory adapter.
    pub closed spec fn is_in_memory(&self) -> bool {
        self.db.is_in_memory()
    }

    /// Create a new authentication service over the given database.
    pub fn new(db: AuthDatabase) -> (r: Self)
        ensures
            r@ == db@,
            r.inv() == db.inv(),
            r.is_in_memory() == db.is_in_memory(),
    {
        AuthService { db }
    }

    /// Register a new user: validate the input, hash the password, create
    /// the user, and never echo the password or the hash back.
    pub fn register(&mut self, username: &str, password: &str) -> (r: AuthResponse)
        requires
            old(self).inv(),
        ensures
            final(self).inv(),
            final(self).is_in_memory() == old(self).is_in_memory(),
            final(self)@.sessions == old(self)@.sessions,
            register_reject(username@, password@) matches Some(msg) ==> final(self)@ == old(
                self,
            )@ && r@ == fail_resp(msg),
            r.success ==> register_reject(username@, password@) is None && !old(
                self,
            )@.users.contains_key(username@) && final(self)@.users.contains_key(username@)
                && final(self)@.users == old(self)@.users.insert(
                username@,
                final(self)@.users[username@],
            ) && final(self)@.users[username@].username == username@ && bcrypt_verify_of(
                password@,
                final(self)@.users[username@].password_hash,
            ) == Some(true) && r@.message == "User "@ + username@ + " registered successfully"@
                && r@.username == Some(username@) && r@.token is None,
            old(self)@.users.contains_key(username@) ==> !r.success,
            (old(self).is_in_memory() && old(self)@.next_id < i64::MAX) ==> exists|
                now: int,
                hashed: Option<Seq<char>>,
            |
                #![trigger spec_register(old(self)@, username@, password@, hashed, now)]
                0 <= now && (hashed matches Some(h) ==> bcrypt_verify_of(password@, h) == Some(
                    true,
                )) && final(self)@ == spec_register(old(self)@, username@, password@, hashed, now).0
                    && r@ == spec_register(old(self)@, username@, password@, hashed, now).1,
    {
        let chars = chars_vec(username);
        let n = chars.len();

        // Validate username length
        if n < 3 || n > 32 {
            proof {
                assert(spec_register(old(self)@, username@, password@, None, 0).0 == old(
                    self,
                )@);
            }
            return AuthResponse {
                success: false,
                message: "Username must be between 3 and 32 characters".to_owned(),
                token: None,
                username: None,
            };
        }

        // Validate username characters (alphanumeric, underscore, hyphen only)
        let mut all_ok = true;
        for i in 0..n
            invariant
                n == chars@.len(),
                chars@ == username@,
                all_ok <==> forall|j: int|
                    0 <= j < i ==> allowed_username_char(#[trigger] chars@[j]),
        {
            let c = chars[i];
            let u = c as u32;
            let ok = (48 <= u && u <= 57) || (65 <= u && u <= 90) || (97 <= u && u <= 122) || c
                == '_' || c == '-';
            all_ok = all_ok && ok;
        }
        if !all_ok {
            proof {
                assert(spec_register(old(self)@, username@, password@, None, 0).0 == old(
                    self,
                )@);
            }
            return AuthResponse {
                success: false,
                message: "Username can only contain letters, numbers, underscore, and hyphen".to_owned(),
                token: None,
                username: None,
            };
        }

        // Validate password
        let pchars = chars_vec(password);
        if pchars.len() < 6 {
            proof {
                assert(spec_register(old(self)@, username@, password@, None, 0).0 == old(
                    self,
                )@);
            }
            return AuthResponse {
                success: false,
                message: "Password must be at least 6 characters".to_owned(),
                token: None,
                username: None,
            };
        }

        // Hash password
        let password_hash = match hash_password(password) {
            Ok(hash) => hash,
            Err(_) => {
                proof {
                    assert(spec_register(old(self)@, username@, password@, None, 0).0 == old(
                        self,
                    )@);
                }
                return AuthResponse {
                    success: false,
                    message: "Internal error".to_owned(),
                    token: None,
                    username: None,
                };
            },
        };

        // Create user
        match self.db.create_user(username, password_hash.as_str()) {
            Ok(_) => {
                let mut message: String = "User ".to_owned();
                message.append(username);
                message.append(" registered successfully");
                proof {
                    if old(self).is_in_memory() {
                        let noww = choose|now: int|
                            #![trigger create_user_model(old(self)@, username@, password_hash@, now)]
                            0 <= now && self@ == create_user_model(
                                old(self)@,
                                username@,
                                password_hash@,
                                now,
                            ).0 && create_user_model(old(self)@, username@, password_hash@, now).1
                                is Ok;
                        assert(self@ == spec_register(
                            old(self)@,
                            username@,
                            password@,
                            Some(password_hash@),
                            noww,
                        ).0);
                    }
                }
                AuthResponse {
                    success: true,
                    message,
                    token: None,
                    username: Some(username.to_owned()),
                }
            },
            Err(e) => {
                proof {
                    if old(self).is_in_memory() && old(self)@.next_id < i64::MAX {
                        assert(old(self)@.users.contains_key(username@));
                        assert(self@ == spec_register(
                            old(self)@,
                            username@,
                            password@,
                            Some(password_hash@),
                            0,
                        ).0);
                    }
                }
                AuthResponse { success: false, message: e, token: None, username: None }
            },
        }
    }

    /// Login a user: an unknown username and a wrong password answer with
    /// one and the same message, so account existence never leaks.
    pub fn login(&mut self, username: &str, password: &str) -> (r: AuthResponse)
        requires
            old(self).inv(),
        ensures
            final(self).inv(),
            final(self).is_in_memory() == old(self).is_in_memory(),
            final(self)@.users == old(self)@.users,
            r.success ==> old(self)@.users.contains_key(username@) && bcrypt_verify_of(
                password@,
                old(self)@.users[username@].password_hash,
            ) == Some(true) && r@.message == "Login successful"@ && r@.username == Some(username@)
                && (r@.token matches Some(t) && t.len() == 36 && exists|s: SessionModel|
                #![trigger old(self)@.sessions.insert(t, s)]
                final(self)@.sessions == old(self)@.sessions.insert(t, s) && s.token == t
                    && s.user_id == old(self)@.users[username@].id && 0 <= s.created_at && 86400
                    <= s.expires_at),
            !old(self)@.users.contains_key(username@) ==> !r.success && (r@.message
                == "Invalid username or password"@ || r@.message == "Internal error"@),
            !r.success ==> r@.token is None && r@.username is None,
            old(self).is_in_memory() ==> exists|token: Seq<char>, now: int, snow: int|
                #![trigger spec_login(old(self)@, username@, password@, token, now, snow)]
                0 <= now && 0 <= snow && final(self)@ == spec_login(
                    old(self)@,
                    username@,
                    password@,
                    token,
                    now,
                    snow,
                ).0 && r@ == spec_login(old(self)@, username@, password@, token, now, snow).1,
    {
        // Get user from database
        let user = match self.db.get_user_by_username(username) {
            Ok(Some(user)) => user,
            Ok(None) => {
                proof {
                    assert(spec_login(old(self)@, username@, password@, Seq::empty(), 0, 0).0
                        == old(self)@);
                }
                return AuthResponse {
                    success: false,
                    message: "Invalid username or password".to_owned(),
                    token: None,
                    username: None,
                };
            },
            Err(_) => {
                proof {
                    if old(self).is_in_memory() {
                        assert(false);
                    }
                }
                return AuthResponse {
                    success: false,
                    message: "Internal error".to_owned(),
                    token: None,
                    username: None,
                };
            },
        };

        // Verify password
        match verify_password(password, user.password_hash.as_str()) {
            Ok(true) => {
                // Create session token
                let token = new_session_token();
                let now = clock::now_unix_seconds();
                if now > i64::MAX - SESSION_DURATION {
                    proof {
                        assert(spec_login(old(self)@, username@, password@, token@, now as int, 0).0
                            == old(self)@);
                    }
                    return AuthResponse {
                        success: false,
                        message: "Internal error".to_owned(),
                        token: None,
                        username: None,
                    };
                }
                let expires_at = now + SESSION_DURATION;

                // Store session
                match self.db.create_session(token.as_str(), user.id, expires_at) {
                    Ok(()) => {
                        proof {
                            if old(self).is_in_memory() {
                                let snow = choose|sn: int|
                                    #![trigger create_session_model(old(self)@, token@, user.id as int, expires_at as int, sn)]
                                    0 <= sn && self@ == create_session_model(
                                        old(self)@,
                                        token@,
                                        user.id as int,
                                        expires_at as int,
                                        sn,
                                    ).0 && create_session_model(
                                        old(self)@,
                                        token@,
                                        user.id as int,
                                        expires_at as int,
                                        sn,
                                    ).1 is Ok;
                                assert(self@ == spec_login(
                                    old(self)@,
                                    username@,
                                    password@,
                                    token@,
                                    now as int,
                                    snow,
                                ).0);
                            }
                        }
                        AuthResponse {
                            success: true,
                            message: "Login successful".to_owned(),
                            token: Some(token),
                            username: Some(user.username),
                        }
                    },
                    Err(_) => {
                        proof {
                            if old(self).is_in_memory() {
                                assert(old(self)@.has_user_id(user.id as int)) by {
                                    assert(old(self)@.users.contains_key(username@));
                                    assert(old(self)@.users[username@].id == user.id as int);
                                }
                                let snow = choose|sn: int|
                                    #![trigger create_session_model(old(self)@, token@, user.id as int, expires_at as int, sn)]
                                    0 <= sn && (false <==> create_session_model(
                                        old(self)@,
                                        token@,
                                        user.id as int,
                                        expires_at as int,
                                        sn,
                                    ).1 is Ok);
                                assert(false);
                            }
                        }
                        AuthResponse {
                            success: false,
                            message: "Internal error".to_owned(),
                            token: None,
                            username: None,
                        }
                    },
                }
            },
            Ok(false) => {
                proof {
                    assert(spec_login(old(self)@, username@, password@, Seq::empty(), 0, 0).0
                        == old(self)@);
                }
                AuthResponse {
                    success: false,
                    message: "Invalid username or password".to_owned(),
                    token: None,
                    username: None,
                }
            },
            Err(_) => {
                proof {
                    assert(spec_login(old(self)@, username@, password@, Seq::empty(), 0, 0).0
                        == old(self)@);
                }
                AuthResponse {
                    success: false,
                    message: "Internal error".to_owned(),
                    token: None,
                    username: None,
                }
            },
        }
    }

    /// Logout a user: deleting the session is idempotent and always
    /// reports success (a backend failure is reported as an internal
    /// error, leaving the session to expire on its own).
    pub fn logout(&mut self, token: &str) -> (r: AuthResponse)
        requires
            old(self).inv(),
        ensures
            final(self).inv(),
            final(self).is_in_memory() == old(self).is_in_memory(),
            final(self)@.users == old(self)@.users,
            r.success ==> final(self)@ == spec_logout(old(self)@, token@).0 && r@ == spec_logout(
                old(self)@,
                token@,
            ).1,
            old(self).is_in_memory() ==> r.success,
    {
        match self.db.delete_session(token) {
            Ok(()) => {
                proof {
                    assert(self@.sessions == spec_logout(old(self)@, token@).0.sessions);
                    assert(self@.users == spec_logout(old(self)@, token@).0.users);
                    assert(self@.next_id == spec_logout(old(self)@, token@).0.next_id);
                    assert(self@ == spec_logout(old(self)@, token@).0);
                }
                AuthResponse {
                    success: true,
                    message: "Logout successful".to_owned(),
                    token: None,
                    username: None,
                }
            },
            Err(_) => AuthResponse {
                success: false,
                message: "Internal error".to_owned(),
                token: None,
                username: None,
            },
        }
    }

    /// Validate a session token: a session that is not live at the time
    /// of the call is never returned; a backend error reads as no valid
    /// session.
    pub fn validate_token(&mut self, token: &str) -> (r: Option<Session>)
        requires
            old(self).inv(),
        ensures
            final(self).inv(),
            final(self).is_in_memory() == old(self).is_in_memory(),
            final(self)@.users == old(self)@.users,
            final(self)@.sessions == old(self)@.sessions || final(self)@.sessions == old(
                self,
            )@.sessions.remove(token@),
            r matches Some(s) ==> s@.expires_at > 0,
            old(self).is_in_memory() ==> exists|now: int|
                #![trigger get_session_model(old(self)@, token@, now)]
                0 <= now && final(self)@ == get_session_model(old(self)@, token@, now).0 && (
                match r {
                    Some(s) => get_session_model(old(self)@, token@, now).1 == Some(s@),
                    None => get_session_model(old(self)@, token@, now).1 is None,
                }),
    {
        match self.db.get_session(token) {
            Ok(session) => session,
            Err(_) => {
                proof {
                    if old(self).is_in_memory() {
                        assert(false);
                    }
                }
                None
            },
        }
    }

    /// Cleanup expired sessions; meant to run on a recurring timer
    /// outside this component.
    pub fn cleanup_expired_sessions(&mut self)
        requires
            old(self).inv(),
        ensures
            final(self).inv(),
            final(self).is_in_memory() == old(self).is_in_memory(),
            final(self)@.users == old(self)@.users,
            old(self).is_in_memory() ==> exists|now: int|
                #![trigger delete_expired_model(old(self)@, now)]
                0 <= now && final(self)@ == delete_expired_model(old(self)@, now),
    {
        let _ = self.db.delete_expired_sessions();
        proof {
            if old(self).is_in_memory() {
                let noww = choose|now: int|
                    #![trigger delete_expired_model(old(self).db@, now)]
                    0 <= now && self.db@ == delete_expired_model(old(self).db@, now);
                assert(self@ == delete_expired_model(old(self)@, noww));
            }
        }
    }
}

/// For every valid username/password pair and fresh username, registering
/// and then logging in succeeds, and the session minted by the login
/// carries the registered user's id.
pub proof fn lemma_register_then_login(
    m0: StoreModel,
    username: Seq<char>,
    password: Seq<char>,
    h: Seq<char>,
    now1: int,
    token: Seq<char>,
    now2: int,
    snow: int,
)
    requires
        register_reject(username, password) is None,
        !m0.users.contains_key(username),
        bcrypt_verify_of(password, h) == Some(true),
        now2 + SESSION_DURATION <= i64::MAX,
    ensures
        ({
            let (m1, r1) = spec_register(m0, username, password, Some(h), now1);
            let (m2, r2) = spec_login(m1, username, password, token, now2, snow);
            r1.success && r2.success && r2.token == Some(token) && m2.sessions.contains_key(
                token,
            ) && m2.sessions[token].user_id == m1.users[username].id
        }),
{
    let (m1, r1) = spec_register(m0, username, password, Some(h), now1);
    let u = m1.users[username];
    assert(m1.users.contains_key(username));
    assert(u.password_hash == h);
    assert(m1.has_user_id(u.id)) by {
        assert(m1.users.contains_key(username) && m1.users[username].id == u.id);
    }
    let (m2, r2) = spec_login(m1, username, password, token, now2, snow);
    assert(m2.sessions == m1.sessions.insert(
        token,
        create_session_model(m1, token, u.id, now2 + SESSION_DURATION, snow).0.sessions[token],
    ));
}

/// Registering the same username twice: the second call reports the
/// conflict, and exactly the one record from the first call persists,
/// with its original password hash.
pub proof fn lemma_register_twice_conflict(
    m0: StoreModel,
    username: Seq<char>,
    p1: Seq<char>,
    p2: Seq<char>,
    h1: Seq<char>,
    h2: Seq<char>,
    now1: int,
    now2: int,
)
    requires
        register_reject(username, p1) is None,
        register_reject(username, p2) is None,
        !m0.users.contains_key(username),
    ensures
        ({
            let (m1, r1) = spec_register(m0, username, p1, Some(h1), now1);
            let (m2, r2) = spec_register(m1, username, p2, Some(h2), now2);
            r1.success && !r2.success && r2.message == "Username already exists"@ && m2 == m1
                && m1.users == m0.users.insert(username, m1.users[username])
                && m1.users[username].password_hash == h1
        }),
{
}

/// Logging in with a nonexistent username and logging in with a wrong
/// password answer with one and the same message, so account existence
/// never leaks.
pub proof fn lemma_login_failure_messages_identical(
    m: StoreModel,
    u1: Seq<char>,
    p1: Seq<char>,
    t1: Seq<char>,
    n1: int,
    s1: int,
    u2: Seq<char>,
    p2: Seq<char>,
    t2: Seq<char>,
    n2: int,
    s2: int,
)
    requires
        !m.users.contains_key(u1),
        m.users.contains_key(u2),
        bcrypt_verify_of(p2, m.users[u2].password_hash) == Some(false),
    ensures
        ({
            let r1 = spec_login(m, u1, p1, t1, n1, s1).1;
            let r2 = spec_login(m, u2, p2, t2, n2, s2).1;
            !r1.success && !r2.success && r1.message == r2.message
        }),
{
}

/// A session that is not live is never returned by a lookup, whatever
/// state the store is in.
pub proof fn lemma_expired_session_never_returned(m: StoreModel, token: Seq<char>, now: int)
    ensures
        ({
            let (m2, res) = get_session_model(m, token, now);
            res matches Some(s) ==> s.expires_at > now
        }),
{
}

/// Logout is idempotent: a second logout, or one for a token that was
/// never issued, also reports success and leaves the store as it was.
pub proof fn lemma_logout_idempotent(m: StoreModel, token: Seq<char>)
    ensures
        ({
            let (m1, r1) = spec_logout(m, token);
            let (m2, r2) = spec_logout(m1, token);
            r1.success && r2.success && m2 == m1
        }),
        !m.sessions.contains_key(token) ==> spec_logout(m, token).0 == m,
{
    let (m1, r1) = spec_logout(m, token);
    let (m2, r2) = spec_logout(m1, token);
    assert(m2.sessions =~= m1.sessions);
    assert(m2 == m1);
    if !m.sessions.contains_key(token) {
        assert(m1.sessions =~= m.sessions);
        assert(m1 == m);
    }
}

/// Creating a user preserves the store invariant and assigns an id no
/// other user carries, so any number of registrations of distinct
/// usernames yields users with pairwise distinct ids.
pub proof fn lemma_registration_keeps_ids_distinct(
    m: StoreModel,
    username: Seq<char>,
    h: Seq<char>,
    now: int,
)
    requires
        m.wf(),
    ensures
        ({
            let (m2, res) = create_user_model(m, username, h, now);
            m2.wf() && (res matches Ok(u) ==> m2.users.contains_key(username) && forall|
                k: Seq<char>,
            |
                m2.users.contains_key(k) && k != username ==> (#[trigger] m2.users[k]).id != u.id)
        }),
{
    let (m2, res) = create_user_model(m, username, h, now);
    if res is Ok {
        assert forall|k: Seq<char>|
            m2.users.contains_key(k) && k != username implies (#[trigger] m2.users[k]).id
            != m.next_id by {
            assert(m.users.contains_key(k));
            assert(m.users[k].id < m.next_id);
        }
    }
}

} // verus!
