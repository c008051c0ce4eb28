use voicepipe::dispatch::{Action, DispatchConfig, DispatchError, Execute};
use voicepipe::runner::{ExitStatus, OutputClassifier};
use voicepipe::session::VoiceSession;
use voicepipe::words::Command;

fn config() -> DispatchConfig {
    DispatchConfig {
        working_dir: "wd".to_string(),
        model: "test-model".to_string(),
        system_prompt: "be brief".to_string(),
        script_path: "scripts/test.sh".to_string(),
        stream: false,
        max_tokens: 100,
    }
}

#[test]
fn voice_scenario_one_send_and_failure_leaves_memory_alone() {
    let mut s = VoiceSession::new(config());
    let mut completions = 0;
    for w in ["turn", "on", "the", "lights", "send"] {
        match s.handle_word(w) {
            Ok(Action::Complete(req)) => {
                completions += 1;
                assert_eq!(req.model, "test-model");
                assert_eq!(req.messages.len(), 2);
                assert_eq!(req.messages[0].role, "system");
                assert_eq!(req.messages[1].role, "user");
                assert_eq!(req.messages[1].content, "turn on the lights");
            }
            Ok(Action::NoOp) => {}
            other => panic!("unexpected action: {:?}", other.is_ok()),
        }
    }
    assert_eq!(completions, 1);
    // the completion call fails: nothing changes, one failure is reported
    s.dispatcher.apply_completion(None);
    assert!(s.dispatcher.memory.get("current").is_none());
    assert!(s.dispatcher.last_result.is_none());
}

#[test]
fn execute_scenario_ok_sentinel_reports_success() {
    let mut ep = Execute::new(config());
    let act = ep.process_task(Command::Execute);
    match act {
        Ok(Action::RunScript(path)) => assert_eq!(path, "scripts/test.sh"),
        _ => panic!("expected RunScript"),
    }
    // the script prints the success sentinel and then its stream ends
    let mut c = OutputClassifier::new();
    c.observe_line("exit => 0\n");
    let r = c.finish();
    assert_eq!(r.status, ExitStatus::OK);
    assert!(ep.apply_script(r.status).is_ok());
}

#[test]
fn script_warning_and_error_surface_as_failures() {
    let ep = Execute::new(config());
    assert!(matches!(
        ep.apply_script(ExitStatus::WARNING),
        Err(DispatchError::ScriptWarning)
    ));
    assert!(matches!(
        ep.apply_script(ExitStatus::ERROR),
        Err(DispatchError::ScriptFailure)
    ));
    assert_eq!(
        DispatchError::ScriptWarning.describe(),
        "script executed with warning"
    );
}

#[test]
fn cancel_is_a_noop_without_error() {
    let mut ep = Execute::new(config());
    let r = ep.process_task(Command::Cancel);
    assert!(matches!(r, Ok(Action::NoOp)));
    assert!(ep.memory.get("current").is_none());
    assert_eq!(ep.messages.len(), 1);
}

#[test]
fn save_without_result_fails() {
    let mut ep = Execute::new(config());
    let r = ep.process_task(Command::Save("my notes".to_string()));
    assert!(matches!(r, Err(DispatchError::NoSavedResult)));
    assert_eq!(
        DispatchError::NoSavedResult.describe(),
        "no completion result available yet"
    );
}

#[test]
fn save_writes_slugged_document() {
    let mut ep = Execute::new(config());
    ep.apply_completion(Some("the answer".to_string()));
    let r = ep.process_task(Command::Save(" my notes ".to_string()));
    match r {
        Ok(Action::WriteDocument(path, content)) => {
            assert_eq!(path, "documents/my-notes.md");
            assert_eq!(content, "the answer");
        }
        _ => panic!("expected WriteDocument"),
    }
}

#[test]
fn read_loads_working_file_into_memory() {
    let mut ep = Execute::new(config());
    let r = ep.process_task(Command::Read(String::new()));
    match r {
        Ok(Action::ReadWorking(path)) => assert_eq!(path, "wd/staging/current.md"),
        _ => panic!("expected ReadWorking"),
    }
    assert!(ep.apply_read(Some("stored context".to_string())));
    assert_eq!(ep.memory.get("current").unwrap(), "stored context");
    // a failed read changes nothing
    assert!(!ep.apply_read(None));
    assert_eq!(ep.memory.get("current").unwrap(), "stored context");
}

#[test]
fn send_appends_memory_content_after_new_text() {
    let mut ep = Execute::new(config());
    ep.apply_read(Some("old context".to_string()));
    let r = ep.process_task(Command::Send("hello".to_string()));
    match r {
        Ok(Action::Complete(req)) => {
            assert_eq!(req.messages[1].content, "hello old context");
        }
        _ => panic!("expected Complete"),
    }
    // a second send rewrites the same slot instead of growing the list
    let r2 = ep.process_task(Command::Send("again".to_string()));
    match r2 {
        Ok(Action::Complete(req)) => {
            assert_eq!(req.messages.len(), 2);
            assert_eq!(req.messages[1].content, "again old context");
        }
        _ => panic!("expected Complete"),
    }
}

#[test]
fn set_script_path_redirects_execute() {
    let mut ep = Execute::new(config());
    ep.set_script_path("other.sh".to_string());
    match ep.process_task(Command::Execute) {
        Ok(Action::RunScript(p)) => assert_eq!(p, "other.sh"),
        _ => panic!("expected RunScript"),
    }
}

#[test]
fn exit_quits_and_continue_is_observability_only() {
    let mut ep = Execute::new(config());
    assert!(matches!(ep.process_task(Command::Exit), Ok(Action::Quit)));
    assert!(matches!(
        ep.process_task(Command::Continue("word".to_string())),
        Ok(Action::NoOp)
    ));
}
