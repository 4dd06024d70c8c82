use arp_foo_bar::gate::EXPECTED_KEY;
use arp_foo_bar::{key, KeyGate, KeyOutcome};

const GOOD: &[u8] = b"e80b5017098950fc58aad83c8c14978e";

fn reply_of(gate: &mut KeyGate, candidate: &[u8]) -> (String, i64) {
    let reply = key(gate, Some(candidate)).unwrap();
    let value: serde_json::Value = serde_json::from_slice(reply.as_bytes()).unwrap();
    let object = value.as_object().unwrap();
    assert_eq!(object.len(), 2);
    (object["message"].as_str().unwrap().to_string(), object["status"].as_i64().unwrap())
}

fn text_of(gate: &mut KeyGate, candidate: &[u8]) -> String {
    String::from_utf8(key(gate, Some(candidate)).unwrap().into_bytes()).unwrap()
}

#[test]
fn expected_key_is_the_token() {
    assert_eq!(EXPECTED_KEY.as_bytes(), GOOD);
    assert_eq!(EXPECTED_KEY.len(), 32);
}

#[test]
fn key_null_candidate_returns_null() {
    let mut gate = KeyGate::new();
    assert!(key(&mut gate, None).is_none());
    assert!(gate.secret().is_none());
}

#[test]
fn key_rejects_invalid_utf8() {
    let mut gate = KeyGate::new();
    assert_eq!(
        text_of(&mut gate, &[0xff, 0xfe]),
        "{\"message\": \"Invalid UTF-8 sequence\", \"status\": 1}"
    );
    assert!(gate.secret().is_none());
}

#[test]
fn key_rejects_the_empty_key() {
    let mut gate = KeyGate::new();
    assert_eq!(text_of(&mut gate, b""), "{\"message\": \"Key cannot be empty\", \"status\": 1}");
    assert_eq!(reply_of(&mut gate, b""), ("Key cannot be empty".to_string(), 1));
    assert!(gate.secret().is_none());
}

#[test]
fn key_rejects_a_wrong_key() {
    let mut gate = KeyGate::new();
    assert_eq!(text_of(&mut gate, b"not the key"), "{\"message\": \"Invalid key\", \"status\": 1}");
    assert_eq!(
        reply_of(&mut gate, b"e80b5017098950fc58aad83c8c14978f"),
        ("Invalid key".to_string(), 1)
    );
    assert_eq!(
        reply_of(&mut gate, b"e80b5017098950fc58aad83c8c14978e "),
        ("Invalid key".to_string(), 1)
    );
    assert!(gate.secret().is_none());
}

#[test]
fn key_accepts_the_expected_key_once() {
    let mut gate = KeyGate::new();
    assert_eq!(text_of(&mut gate, GOOD), "{\"message\": \"Success\", \"status\": 0}");
    assert_eq!(gate.secret().map(|s| s.as_str()), Some(EXPECTED_KEY));
    assert_eq!(
        text_of(&mut gate, GOOD),
        "{\"message\": \"Key already initialized\", \"status\": 1}"
    );
    assert_eq!(gate.secret().map(|s| s.as_str()), Some(EXPECTED_KEY));
}

#[test]
fn key_checks_the_candidate_before_the_slot() {
    let mut gate = KeyGate::new();
    assert_eq!(reply_of(&mut gate, GOOD), ("Success".to_string(), 0));
    assert_eq!(reply_of(&mut gate, b""), ("Key cannot be empty".to_string(), 1));
    assert_eq!(reply_of(&mut gate, b"wrong"), ("Invalid key".to_string(), 1));
    assert_eq!(reply_of(&mut gate, &[0x80]), ("Invalid UTF-8 sequence".to_string(), 1));
    assert_eq!(reply_of(&mut gate, GOOD), ("Key already initialized".to_string(), 1));
    assert_eq!(gate.secret().map(|s| s.as_str()), Some(EXPECTED_KEY));
}

#[test]
fn key_failed_attempts_leave_the_slot_empty() {
    let mut gate = KeyGate::new();
    assert_eq!(reply_of(&mut gate, b"wrong"), ("Invalid key".to_string(), 1));
    assert_eq!(reply_of(&mut gate, b""), ("Key cannot be empty".to_string(), 1));
    assert!(gate.secret().is_none());
    assert_eq!(reply_of(&mut gate, GOOD), ("Success".to_string(), 0));
}

#[test]
fn key_has_one_winner_among_many_attempts() {
    let mut gate = KeyGate::new();
    let mut accepted = 0;
    let mut told_set = 0;
    for _ in 0..16 {
        match gate.attempt(GOOD) {
            KeyOutcome::Accepted => accepted += 1,
            KeyOutcome::AlreadyInitialized => told_set += 1,
            other => panic!("unexpected outcome {:?}", other),
        }
    }
    assert_eq!(accepted, 1);
    assert_eq!(told_set, 15);
}

#[test]
fn key_has_one_winner_behind_a_lock() {
    let gate = std::sync::Mutex::new(KeyGate::new());
    let mut replies = Vec::new();
    for _ in 0..8 {
        let reply = key(&mut gate.lock().unwrap(), Some(GOOD)).unwrap();
        replies.push(String::from_utf8(reply.into_bytes()).unwrap());
    }
    let won = "{\"message\": \"Success\", \"status\": 0}";
    let lost = "{\"message\": \"Key already initialized\", \"status\": 1}";
    assert_eq!(replies.iter().filter(|r| r.as_str() == won).count(), 1);
    assert_eq!(replies.iter().filter(|r| r.as_str() == lost).count(), 7);
    assert_eq!(replies[0], won);
    assert_eq!(gate.lock().unwrap().secret().map(|s| s.as_str()), Some(EXPECTED_KEY));
}

#[test]
fn attempt_reports_each_outcome() {
    let mut gate = KeyGate::new();
    assert_eq!(gate.attempt(&[0xc3]), KeyOutcome::InvalidUtf8);
    assert_eq!(gate.attempt(b""), KeyOutcome::Empty);
    assert_eq!(gate.attempt(b"k"), KeyOutcome::Invalid);
    assert_eq!(gate.attempt(GOOD), KeyOutcome::Accepted);
    assert_eq!(gate.attempt(GOOD), KeyOutcome::AlreadyInitialized);
}

#[test]
fn outcome_status_and_message() {
    let all = [
        (KeyOutcome::InvalidUtf8, 1, "Invalid UTF-8 sequence"),
        (KeyOutcome::Empty, 1, "Key cannot be empty"),
        (KeyOutcome::Invalid, 1, "Invalid key"),
        (KeyOutcome::Accepted, 0, "Success"),
        (KeyOutcome::AlreadyInitialized, 1, "Key already initialized"),
    ];
    for (outcome, status, message) in all {
        assert_eq!(outcome.status(), status);
        assert_eq!(outcome.message(), message);
        let expected = format!("{{\"message\": \"{}\", \"status\": {}}}", message, status);
        assert_eq!(outcome.reply(), expected);
    }
}

#[test]
fn new_gate_is_empty() {
    assert!(KeyGate::new().secret().is_none());
}
