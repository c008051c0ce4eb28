use voicepipe::parser::{select_unique, PromptParser};

fn entry(path: &str, name: &str, is_file: bool) -> (String, String, bool) {
    (path.to_string(), name.to_string(), is_file)
}

#[test]
fn parse_passes_ordinary_input_through() {
    let r = PromptParser::parse("wd".to_string(), "what is a qubit".to_string());
    assert_eq!(r, "what is a qubit");
}

#[test]
fn parse_rejects_unbalanced_locator() {
    let r = PromptParser::parse("wd".to_string(), "execute open scripts test".to_string());
    assert_eq!(r, "execute none");
    let r = PromptParser::parse("wd".to_string(), "execute scripts test close".to_string());
    assert_eq!(r, "execute none");
}

#[test]
fn parse_rejects_short_locator_segment() {
    let r = PromptParser::parse("wd".to_string(), "execute open close".to_string());
    assert_eq!(r, "execute none");
}

#[test]
fn parse_yields_none_when_nothing_on_disk_matches() {
    let r = PromptParser::parse(
        "/nonexistent-root".to_string(),
        "execute open scripts deploy close".to_string(),
    );
    assert_eq!(r, "execute none");
}

#[test]
fn select_unique_takes_the_single_matching_file() {
    let entries = vec![
        entry("wd/scripts", "scripts", false),
        entry("wd/scripts/deploy.sh", "deploy.sh", true),
        entry("wd/scripts/readme.md", "readme.md", true),
    ];
    assert_eq!(select_unique(&entries, "deploy"), "wd/scripts/deploy.sh");
}

#[test]
fn select_unique_rejects_zero_or_many_matches() {
    let entries = vec![
        entry("wd/a/deploy.sh", "deploy.sh", true),
        entry("wd/b/deploy.sh", "deploy.sh", true),
    ];
    assert_eq!(select_unique(&entries, "deploy"), "none");
    assert_eq!(select_unique(&entries, "missing"), "none");
}

#[test]
fn select_unique_ignores_directories() {
    let entries = vec![
        entry("wd/deploy", "deploy", false),
        entry("wd/deploy/run.sh", "run.sh", true),
    ];
    assert_eq!(select_unique(&entries, "deploy"), "none");
    assert_eq!(select_unique(&entries, "run"), "wd/deploy/run.sh");
}
