// Tests for campaign runs, the sandbox, the record codec and the string
// helpers.

use geekcraft::api::scripting::ScriptManager;
use geekcraft::auth::codec::{decode_session, decode_user, encode_session, encode_user};
use geekcraft::auth::models::{Session, User};
use geekcraft::game::campaign::{validate_run_id, CampaignManager, CampaignRun, InMemoryRunStore};
use geekcraft::game::simulation::Simulation;
use geekcraft::network::server::Server;
use geekcraft::scripting::Sandbox;
use geekcraft::strutil::{strings_equal, u64_to_string};

#[test]
fn test_validate_run_id_accepts_plain_ids() {
    assert!(validate_run_id("run_1.save").is_ok());
    assert!(validate_run_id("Abc-123").is_ok());
}

#[test]
fn test_validate_run_id_rejects_empty() {
    assert_eq!(validate_run_id("").unwrap_err(), "Run ID cannot be empty");
}

#[test]
fn test_validate_run_id_rejects_path_separators() {
    let msg = "Run ID contains invalid characters (path separators or '..')";
    assert_eq!(validate_run_id("a/b").unwrap_err(), msg);
    assert_eq!(validate_run_id("a\\b").unwrap_err(), msg);
    assert_eq!(validate_run_id("a..b").unwrap_err(), msg);
}

#[test]
fn test_validate_run_id_rejects_long_ids() {
    let long = "a".repeat(256);
    assert_eq!(
        validate_run_id(&long).unwrap_err(),
        "Run ID is too long (max 255 characters)"
    );
}

#[test]
fn test_validate_run_id_rejects_bad_characters() {
    assert_eq!(
        validate_run_id("run$1").unwrap_err(),
        "Run ID can only contain alphanumeric characters, underscore, hyphen, and dot"
    );
}

#[test]
fn test_campaign_run_lifecycle() {
    let mut run = CampaignRun::new("r1".to_string());
    assert_eq!(run.run_id, "r1");
    assert_eq!(run.tick, 0);
    assert!(!run.running);
    run.tick();
    assert_eq!(run.tick, 0, "a stopped run does not tick");
    run.start();
    assert!(run.running);
    run.tick();
    run.tick();
    assert_eq!(run.tick, 2);
    run.stop();
    assert!(!run.running);
}

#[test]
fn test_run_store_round_trip() {
    let mut store = InMemoryRunStore::new();
    let run = store.create_run("alpha".to_string());
    assert_eq!(run.run_id, "alpha");
    assert!(store.get_run("alpha").is_some());
    assert!(store.get_run("beta").is_none());
    let removed = store.remove_run("alpha").expect("present");
    assert_eq!(removed.run_id, "alpha");
    assert!(store.get_run("alpha").is_none());
    store.insert_run("alpha".to_string(), removed);
    assert!(store.get_run("alpha").is_some());
}

#[test]
fn test_campaign_manager_flow() {
    let mut manager = CampaignManager::new();

    let started = manager.start_run("battle1".to_string()).expect("start");
    assert!(started.running);
    assert_eq!(started.tick, 0);

    let dup = manager.start_run("battle1".to_string());
    assert_eq!(dup.unwrap_err(), "Run battle1 already exists");

    let bad = manager.start_run("../oops".to_string());
    assert!(bad.is_err());

    manager.tick_run("battle1").expect("tick");
    manager.tick_run("battle1").expect("tick");
    let state = manager.get_run_state("battle1").expect("state");
    assert_eq!(state.tick, 2);
    assert!(state.running);

    manager.stop_run("battle1").expect("stop");
    let stopped = manager.get_run_state("battle1").expect("state");
    assert!(!stopped.running);

    let not_running = manager.tick_run("battle1");
    assert_eq!(not_running.unwrap_err(), "Run battle1 is not running");

    let missing = manager.stop_run("ghost");
    assert_eq!(missing.unwrap_err(), "Run ghost not found");
    let missing_tick = manager.tick_run("ghost");
    assert_eq!(missing_tick.unwrap_err(), "Run ghost not found");
}

#[test]
fn test_sandbox_submission_rules() {
    let mut sandbox = Sandbox::new();

    assert!(sandbox.submit_code("player1".to_string(), "move();".to_string()).is_ok());
    assert_eq!(sandbox.get_code("player1").map(|s| s.as_str()), Some("move();"));
    assert!(sandbox.get_code("player2").is_none());

    let blank = sandbox.submit_code("   ".to_string(), "x".to_string());
    assert_eq!(blank.unwrap_err(), "Player ID cannot be empty");

    let huge = "a".repeat(1_000_001);
    let too_big = sandbox.submit_code("player1".to_string(), huge);
    assert_eq!(
        too_big.unwrap_err(),
        "Code too large: 1000001 bytes (max: 1000000 bytes)"
    );

    assert!(sandbox.submit_code("player2".to_string(), "idle();".to_string()).is_ok());
    let mut players = sandbox.list_players();
    players.sort();
    assert_eq!(players, vec!["player1".to_string(), "player2".to_string()]);

    assert!(sandbox.execute_script("move();").is_ok());
}

#[test]
fn test_script_manager_stores_scripts() {
    let mut manager = ScriptManager::new();
    manager.add_script("harvest".to_string(), "gather();".to_string());
    let script = manager.get_script("harvest").expect("stored");
    assert_eq!(script.code, "gather();");
    assert!(manager.get_script("missing").is_none());
}

#[test]
fn test_user_record_codec_round_trip() {
    let user = User {
        id: 42,
        username: "ulrich".to_string(),
        password_hash: "$2b$12$abcdefghijklmnopqrstuv".to_string(),
        created_at: 1_700_000_000,
    };
    let bytes = encode_user(&user);
    let back = decode_user(&bytes).expect("round trip");
    assert_eq!(back.id, user.id);
    assert_eq!(back.username, user.username);
    assert_eq!(back.password_hash, user.password_hash);
    assert_eq!(back.created_at, user.created_at);
}

#[test]
fn test_session_record_codec_round_trip() {
    let session = Session {
        token: "0c6ad1a5-5f4e-4f3a-9c89-123456789abc".to_string(),
        user_id: 7,
        username: "ulrich".to_string(),
        created_at: 1_700_000_000,
        expires_at: 1_700_086_400,
    };
    let bytes = encode_session(&session);
    let back = decode_session(&bytes).expect("round trip");
    assert_eq!(back.token, session.token);
    assert_eq!(back.user_id, session.user_id);
    assert_eq!(back.username, session.username);
    assert_eq!(back.created_at, session.created_at);
    assert_eq!(back.expires_at, session.expires_at);
}

#[test]
fn test_codec_rejects_garbage() {
    assert!(decode_user(&[]).is_none());
    assert!(decode_user(&[1, 2, 3]).is_none());
    let mut bytes = encode_user(&User {
        id: 1,
        username: "x1".to_string(),
        password_hash: "h".to_string(),
        created_at: 0,
    });
    bytes.pop();
    assert!(decode_user(&bytes).is_none(), "a truncated record must not parse");
    assert!(decode_session(&[0; 39]).is_none());
}

#[test]
fn test_u64_to_string_renders_decimal() {
    assert_eq!(u64_to_string(0), "0");
    assert_eq!(u64_to_string(7), "7");
    assert_eq!(u64_to_string(1234567890), "1234567890");
    assert_eq!(u64_to_string(u64::MAX), "18446744073709551615");
}

#[test]
fn test_strings_equal() {
    assert!(strings_equal("abc", "abc"));
    assert!(!strings_equal("abc", "abd"));
    assert!(!strings_equal("abc", "ab"));
}

#[test]
fn test_simulation_keeps_running() {
    let mut sim = Simulation::new(1);
    sim.update();
    sim.update();
}

#[test]
fn test_server_holds_address() {
    let server = Server::new("127.0.0.1:3030");
    assert_eq!(server.address().as_str(), "127.0.0.1:3030");
}
