use shader_sandbox::pipeline::compile_verdict;
use shader_sandbox::validation::{ValidationError, ValidationLog};

#[test]
fn a_silent_compile_may_commit() {
    assert!(compile_verdict(None).is_ok());
}

#[test]
fn a_diagnostic_blocks_the_commit_and_comes_back() {
    let verdict = compile_verdict(Some(String::from("unknown identifier `foo`")));
    match verdict {
        Ok(()) => panic!("a diagnostic must block the commit"),
        Err(msgs) => assert_eq!(msgs, vec!["unknown identifier `foo`"]),
    }
}

#[test]
fn an_error_keeps_its_message() {
    let e = ValidationError::new(String::from("type mismatch at line 3"));
    assert_eq!(e.message().as_str(), "type mismatch at line 3");
    assert_eq!(e.into_message(), "type mismatch at line 3");
}

#[test]
fn a_new_log_is_empty() {
    let log = ValidationLog::new();
    assert!(log.is_empty());
    assert_eq!(log.len(), 0);
}

#[test]
fn recording_grows_the_log() {
    let mut log = ValidationLog::new();
    log.record(ValidationError::new(String::from("first")));
    assert!(!log.is_empty());
    assert_eq!(log.len(), 1);
    log.record(ValidationError::new(String::from("second")));
    assert_eq!(log.len(), 2);
}

#[test]
fn drain_empties_the_log_and_keeps_order() {
    let mut log = ValidationLog::new();
    log.record(ValidationError::new(String::from("first")));
    log.record(ValidationError::new(String::from("second")));
    log.record(ValidationError::new(String::from("third")));
    let drained = log.drain();
    assert!(log.is_empty());
    assert_eq!(log.len(), 0);
    let messages: Vec<String> = drained.into_iter().map(|e| e.into_message()).collect();
    assert_eq!(messages, vec!["first", "second", "third"]);
}

#[test]
fn drained_messages_cannot_leak_into_a_later_attempt() {
    let mut log = ValidationLog::new();
    log.record(ValidationError::new(String::from("stale")));
    let _ = log.drain();
    log.record(ValidationError::new(String::from("fresh")));
    let drained = log.drain();
    let messages: Vec<String> = drained.into_iter().map(|e| e.into_message()).collect();
    assert_eq!(messages, vec!["fresh"]);
    assert!(log.is_empty());
}
