use orion_eira_nexus::auth::{fnv1a_hash, UserRegistry};

#[test]
fn test_register_and_authenticate() {
    let mut registry = UserRegistry::new();
    registry.register("alice", "secret").unwrap();
    assert!(registry.authenticate("alice", "secret", "t0"));
}

#[test]
fn test_wrong_password_fails() {
    let mut registry = UserRegistry::new();
    registry.register("bob", "correct-horse").unwrap();
    assert!(!registry.authenticate("bob", "wrong", "t0"));
}

#[test]
fn test_unknown_user_fails() {
    let mut registry = UserRegistry::new();
    assert!(!registry.authenticate("nobody", "pass", "t0"));
}

#[test]
fn test_duplicate_username_rejected() {
    let mut registry = UserRegistry::new();
    registry.register("carol", "pass1").unwrap();
    assert!(registry.register("carol", "pass2").is_err());
}

#[test]
fn test_empty_username_rejected() {
    let mut registry = UserRegistry::new();
    assert!(registry.register("", "pass").is_err());
}

#[test]
fn test_empty_password_rejected() {
    let mut registry = UserRegistry::new();
    assert!(registry.register("dave", "").is_err());
}

#[test]
fn test_login_log_records_all_attempts() {
    let mut registry = UserRegistry::new();
    registry.register("eve", "pass").unwrap();
    registry.authenticate("eve", "pass", "t1");
    registry.authenticate("eve", "wrong", "t2");
    registry.authenticate("nobody", "x", "t3");
    let log = registry.login_log();
    assert_eq!(log.len(), 3);
    assert!(log[0].success);
    assert!(!log[1].success);
    assert!(!log[2].success);
}

#[test]
fn test_hash_is_deterministic() {
    assert_eq!(fnv1a_hash("password"), fnv1a_hash("password"));
    assert_ne!(fnv1a_hash("password"), fnv1a_hash("PASSWORD"));
}

#[test]
fn test_is_registered() {
    let mut registry = UserRegistry::new();
    assert!(!registry.is_registered("frank"));
    registry.register("frank", "p").unwrap();
    assert!(registry.is_registered("frank"));
}

#[test]
fn test_hash_distinct_values() {
    assert_ne!(fnv1a_hash("abc"), fnv1a_hash("abd"));
    assert_ne!(fnv1a_hash(""), fnv1a_hash(" "));
}

#[test]
fn fnv1a_known_values() {
    assert_eq!(fnv1a_hash(""), 14695981039346656037);
    assert_eq!(fnv1a_hash("a"), 12638187200555641996);
    assert_eq!(fnv1a_hash("password"), 5411718394350379800);
}

#[test]
fn register_error_messages() {
    let mut registry = UserRegistry::new();
    assert_eq!(registry.register("", "pass"), Err("username must not be empty"));
    assert_eq!(registry.register("", ""), Err("username must not be empty"));
    assert_eq!(registry.register("gina", ""), Err("password must not be empty"));
    assert_eq!(registry.register("gina", "pw"), Ok(()));
    assert_eq!(registry.register("gina", "other"), Err("username already registered"));
}

#[test]
fn registration_does_not_touch_login_log() {
    let mut registry = UserRegistry::new();
    registry.register("hank", "pw").unwrap();
    let _ = registry.register("hank", "pw");
    assert!(registry.login_log().is_empty());
}

#[test]
fn login_record_keeps_username_and_timestamp() {
    let mut registry = UserRegistry::new();
    registry.register("ivy", "pw").unwrap();
    assert!(registry.authenticate("ivy", "pw", "2026-01-01T00:00:00Z"));
    let log = registry.login_log();
    assert_eq!(log[0].username, "ivy");
    assert_eq!(log[0].timestamp, "2026-01-01T00:00:00Z");
}

#[test]
fn duplicate_registration_keeps_first_password() {
    let mut registry = UserRegistry::new();
    registry.register("jack", "first").unwrap();
    assert!(registry.register("jack", "second").is_err());
    assert!(registry.authenticate("jack", "first", "t"));
    assert!(!registry.authenticate("jack", "second", "t"));
}

#[test]
fn default_registry_is_empty() {
    let registry = UserRegistry::default();
    assert!(!registry.is_registered("anyone"));
    assert!(registry.login_log().is_empty());
}
