use voicepipe::runner::{ExitStatus, OutputClassifier};

#[test]
fn ok_sentinel_classifies_ok() {
    let mut c = OutputClassifier::new();
    c.observe_line("building...\n");
    c.observe_line("exit => 0\n");
    c.observe_line("done\n");
    let r = c.finish();
    assert_eq!(r.status, ExitStatus::OK);
    assert_eq!(r.lines.len(), 3);
    assert_eq!(r.lines[0], "building...\n");
}

#[test]
fn warning_sentinel_classifies_warning() {
    let mut c = OutputClassifier::new();
    c.observe_line("exit => 1\n");
    let r = c.finish();
    assert_eq!(r.status, ExitStatus::WARNING);
}

#[test]
fn no_sentinel_classifies_error() {
    let mut c = OutputClassifier::new();
    c.observe_line("no sentinel here\n");
    let r = c.finish();
    assert_eq!(r.status, ExitStatus::ERROR);
}

#[test]
fn first_sentinel_wins() {
    let mut c = OutputClassifier::new();
    c.observe_line("exit => 1\n");
    c.observe_line("exit => 0\n");
    let r = c.finish();
    assert_eq!(r.status, ExitStatus::WARNING);
}

#[test]
fn empty_stream_classifies_error() {
    let c = OutputClassifier::new();
    let r = c.finish();
    assert_eq!(r.status, ExitStatus::ERROR);
}
