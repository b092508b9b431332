// Tests for the authentication service and its storage backends.

use geekcraft::auth::{AuthDatabase, AuthService, DatabaseBackend};

fn in_memory_service() -> AuthService {
    let db = AuthDatabase::new(DatabaseBackend::InMemory).expect("in-memory backend");
    AuthService::new(db)
}

#[test]
fn test_register_login_validate_logout_flow() {
    let mut service = in_memory_service();

    let reg = service.register("alice", "secret1");
    assert!(reg.success);
    assert_eq!(reg.message, "User alice registered successfully");
    assert_eq!(reg.username.as_deref(), Some("alice"));
    assert!(reg.token.is_none());

    let login = service.login("alice", "secret1");
    assert!(login.success);
    assert_eq!(login.message, "Login successful");
    let token = login.token.expect("login should return a token");
    assert_eq!(token.len(), 36);

    let session = service.validate_token(&token).expect("session should be live");
    assert_eq!(session.username, "alice");
    assert_eq!(session.token, token);

    let logout = service.logout(&token);
    assert!(logout.success);
    assert_eq!(logout.message, "Logout successful");

    assert!(service.validate_token(&token).is_none());
}

#[test]
fn test_register_short_username() {
    let mut service = in_memory_service();
    let reg = service.register("ab", "secret1");
    assert!(!reg.success);
    assert_eq!(reg.message, "Username must be between 3 and 32 characters");
}

#[test]
fn test_register_long_username() {
    let mut service = in_memory_service();
    let name = "a".repeat(33);
    let reg = service.register(&name, "secret1");
    assert!(!reg.success);
    assert_eq!(reg.message, "Username must be between 3 and 32 characters");
}

#[test]
fn test_register_bad_username_characters() {
    let mut service = in_memory_service();
    let reg = service.register("bad name!", "secret1");
    assert!(!reg.success);
    assert_eq!(
        reg.message,
        "Username can only contain letters, numbers, underscore, and hyphen"
    );
}

#[test]
fn test_register_short_password() {
    let mut service = in_memory_service();
    let reg = service.register("bob", "short");
    assert!(!reg.success);
    assert_eq!(reg.message, "Password must be at least 6 characters");
}

#[test]
fn test_register_duplicate_is_conflict() {
    let mut service = in_memory_service();
    assert!(service.register("bob", "secret1").success);
    let second = service.register("bob", "other12");
    assert!(!second.success);
    assert_eq!(second.message, "Username already exists");
}

#[test]
fn test_duplicate_keeps_original_hash() {
    let mut db = AuthDatabase::new(DatabaseBackend::InMemory).expect("in-memory backend");
    db.create_user("bob", "hash-one").expect("first create");
    let second = db.create_user("bob", "hash-two");
    assert!(second.is_err());
    assert_eq!(second.unwrap_err(), "Username already exists");
    let user = db
        .get_user_by_username("bob")
        .expect("lookup")
        .expect("bob exists");
    assert_eq!(user.password_hash, "hash-one");
}

#[test]
fn test_login_failure_messages_identical() {
    let mut service = in_memory_service();
    assert!(service.register("carol", "secret1").success);

    let wrong_password = service.login("carol", "wrongpw7");
    assert!(!wrong_password.success);

    let unknown_user = service.login("nobody", "whatever9");
    assert!(!unknown_user.success);

    assert_eq!(wrong_password.message, unknown_user.message);
    assert_eq!(unknown_user.message, "Invalid username or password");
    assert!(wrong_password.token.is_none() && unknown_user.token.is_none());
}

#[test]
fn test_expired_session_not_returned() {
    let mut db = AuthDatabase::new(DatabaseBackend::InMemory).expect("in-memory backend");
    let user = db.create_user("dave", "some-hash").expect("create");

    // A session created already expired (expiry far in the past) must
    // never come back from a lookup.
    db.create_session("dead-token", user.id, 1).expect("create session");
    let looked_up = db.get_session("dead-token").expect("lookup");
    assert!(looked_up.is_none(), "expired session must not be returned");

    // A live session still comes back.
    let expires = user.created_at + 3600;
    db.create_session("live-token", user.id, expires).expect("create session");
    assert!(db.get_session("live-token").expect("lookup").is_some());
}

#[test]
fn test_logout_is_idempotent() {
    let mut service = in_memory_service();
    assert!(service.register("erin", "secret1").success);
    let login = service.login("erin", "secret1");
    let token = login.token.expect("token");

    let first = service.logout(&token);
    let second = service.logout(&token);
    let never_issued = service.logout("no-such-token");

    assert!(first.success);
    assert!(second.success);
    assert!(never_issued.success);
    assert_eq!(second.message, "Logout successful");
    assert_eq!(never_issued.message, "Logout successful");
}

#[test]
fn test_stress_distinct_usernames() {
    // The sequential analogue of hammering registration with distinct
    // usernames: every name lands, ids are pairwise distinct.
    let mut db = AuthDatabase::new(DatabaseBackend::InMemory).expect("in-memory backend");
    let n = 100;
    let mut ids = Vec::new();
    for i in 0..n {
        let name = format!("user_{}", i);
        let user = db.create_user(&name, "stress-hash").expect("create");
        ids.push(user.id);
    }
    for i in 0..n {
        let name = format!("user_{}", i);
        assert!(db.get_user_by_username(&name).expect("lookup").is_some());
    }
    ids.sort();
    ids.dedup();
    assert_eq!(ids.len(), n, "every user must carry a distinct id");
}

#[test]
fn test_stress_distinct_usernames_sqlite() {
    let mut db =
        AuthDatabase::new(DatabaseBackend::SQLite(":memory:".to_string())).expect("sqlite");
    let n = 50;
    let mut ids = Vec::new();
    for i in 0..n {
        let name = format!("sq_user_{}", i);
        let user = db.create_user(&name, "stress-hash").expect("create");
        ids.push(user.id);
    }
    ids.sort();
    ids.dedup();
    assert_eq!(ids.len(), n, "every user must carry a distinct id");
}

#[test]
fn test_create_session_unknown_user() {
    let mut db = AuthDatabase::new(DatabaseBackend::InMemory).expect("in-memory backend");
    let r = db.create_session("some-token", 424242, 99_999_999_999);
    assert!(r.is_err());
    assert_eq!(r.unwrap_err(), "User not found");
}

#[test]
fn test_session_expiry_sweep() {
    let mut db = AuthDatabase::new(DatabaseBackend::InMemory).expect("in-memory backend");
    let user = db.create_user("frank", "h").expect("create");
    db.create_session("old-token", user.id, 1).expect("create");
    db.create_session("new-token", user.id, user.created_at + 7200).expect("create");
    db.delete_expired_sessions().expect("sweep");
    assert!(db.get_session("old-token").expect("lookup").is_none());
    assert!(db.get_session("new-token").expect("lookup").is_some());
}

#[test]
fn test_sqlite_backend_auth_flow() {
    let mut db =
        AuthDatabase::new(DatabaseBackend::SQLite(":memory:".to_string())).expect("sqlite");

    let user = db.create_user("gina", "sqlite-hash").expect("create");
    assert!(user.id > 0);
    assert_eq!(user.username, "gina");

    let dup = db.create_user("gina", "other-hash");
    assert!(dup.is_err());
    assert_eq!(dup.unwrap_err(), "Username already exists");

    let fetched = db
        .get_user_by_username("gina")
        .expect("lookup")
        .expect("gina exists");
    assert_eq!(fetched.id, user.id);
    assert_eq!(fetched.password_hash, "sqlite-hash");

    assert!(db.get_user_by_username("nobody").expect("lookup").is_none());

    db.create_session("sq-token", user.id, user.created_at + 3600).expect("session");
    let session = db.get_session("sq-token").expect("lookup").expect("live");
    assert_eq!(session.username, "gina");
    assert_eq!(session.user_id, user.id);

    let missing = db.create_session("other", 777777, user.created_at + 3600);
    assert!(missing.is_err());
    assert_eq!(missing.unwrap_err(), "User not found");

    db.create_session("sq-dead", user.id, 1).expect("session");
    assert!(db.get_session("sq-dead").expect("lookup").is_none());

    db.delete_session("sq-token").expect("delete");
    assert!(db.get_session("sq-token").expect("lookup").is_none());
    db.delete_session("sq-token").expect("delete absent is ok");

    db.create_session("sweep-a", user.id, 1).expect("session");
    db.create_session("sweep-b", user.id, user.created_at + 3600).expect("session");
    db.delete_expired_sessions().expect("sweep");
    assert!(db.get_session("sweep-a").expect("lookup").is_none());
    assert!(db.get_session("sweep-b").expect("lookup").is_some());
}

#[test]
fn test_sqlite_service_end_to_end() {
    let db = AuthDatabase::new(DatabaseBackend::SQLite(":memory:".to_string())).expect("sqlite");
    let mut service = AuthService::new(db);
    assert!(service.register("henry", "secret1").success);
    let login = service.login("henry", "secret1");
    assert!(login.success);
    let token = login.token.expect("token");
    let session = service.validate_token(&token).expect("live session");
    assert_eq!(session.username, "henry");
    assert!(service.logout(&token).success);
    assert!(service.validate_token(&token).is_none());
}

#[test]
fn test_redis_backend_unreachable_fails_fast() {
    // Construction is fail-fast: an unreachable server is reported before
    // any operation is served.
    let r = AuthDatabase::new(DatabaseBackend::Redis("redis://127.0.0.1:1/".to_string()));
    assert!(r.is_err());
}

#[test]
fn test_document_store_unreachable_fails_fast() {
    let url = "mongodb://127.0.0.1:1/geekcraft?serverSelectionTimeoutMS=300&connectTimeoutMS=300";
    let r = AuthDatabase::new(DatabaseBackend::DocumentStore(url.to_string()));
    assert!(r.is_err());
}
