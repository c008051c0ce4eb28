use voicepipe::words::{Command, CommandWordStateMachine};

#[test]
fn non_keyword_words_join_with_single_spaces() {
    let mut m = CommandWordStateMachine::new();
    for w in ["turn", "on", "the", "lights"] {
        let cmd = m.process_word(w);
        assert!(matches!(cmd, Some(Command::Continue(_))));
    }
    assert_eq!(m.pending().as_str(), "turn on the lights");
}

#[test]
fn send_emits_pending_and_resets() {
    let mut m = CommandWordStateMachine::new();
    m.process_word("turn");
    m.process_word("on");
    let cmd = m.process_word("send");
    match cmd {
        Some(Command::Send(t)) => assert_eq!(t.as_str(), "turn on"),
        _ => panic!("expected Send"),
    }
    assert_eq!(m.pending().as_str(), "");
    let again = m.process_word("send");
    match again {
        Some(Command::Send(t)) => assert_eq!(t.as_str(), ""),
        _ => panic!("expected Send of empty text"),
    }
}

#[test]
fn cancel_on_empty_pending_is_noop() {
    let mut m = CommandWordStateMachine::new();
    let cmd = m.process_word("cancel");
    assert!(matches!(cmd, Some(Command::Cancel)));
    assert_eq!(m.pending().as_str(), "");
}

#[test]
fn cancel_discards_pending() {
    let mut m = CommandWordStateMachine::new();
    m.process_word("hello");
    let cmd = m.process_word("cancel");
    assert!(matches!(cmd, Some(Command::Cancel)));
    assert_eq!(m.pending().as_str(), "");
}

#[test]
fn keywords_match_whole_words_only() {
    let mut m = CommandWordStateMachine::new();
    let cmd = m.process_word("sendoff");
    assert!(matches!(cmd, Some(Command::Continue(_))));
    assert_eq!(m.pending().as_str(), "sendoff");
    let cmd = m.process_word("cancelled");
    assert!(matches!(cmd, Some(Command::Continue(_))));
    assert_eq!(m.pending().as_str(), "sendoff cancelled");
}

#[test]
fn exit_is_emitted_and_pending_kept() {
    let mut m = CommandWordStateMachine::new();
    m.process_word("hello");
    let cmd = m.process_word("exit");
    assert!(matches!(cmd, Some(Command::Exit)));
    assert_eq!(m.pending().as_str(), "hello");
}

#[test]
fn save_emits_pending_without_clearing() {
    let mut m = CommandWordStateMachine::new();
    m.process_word("my");
    m.process_word("notes");
    let cmd = m.process_word("save");
    match cmd {
        Some(Command::Save(t)) => assert_eq!(t.as_str(), "my notes"),
        _ => panic!("expected Save"),
    }
    assert_eq!(m.pending().as_str(), "my notes");
    m.clear();
    assert_eq!(m.pending().as_str(), "");
}

#[test]
fn read_emits_pending() {
    let mut m = CommandWordStateMachine::new();
    m.process_word("context");
    let cmd = m.process_word("read");
    match cmd {
        Some(Command::Read(t)) => assert_eq!(t.as_str(), "context"),
        _ => panic!("expected Read"),
    }
}

#[test]
fn execute_needs_script_intent() {
    let mut m = CommandWordStateMachine::new();
    assert!(m.process_word("execute").is_none());
    m.process_word("deploy");
    let cmd = m.process_word("execute");
    assert!(matches!(cmd, Some(Command::Execute)));
}
