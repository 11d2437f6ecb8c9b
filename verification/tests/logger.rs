use spotify_token::logger::{logs, logs_at, logs_undefined};

const STAMP: &str = "Tue, 1 Jul 2003 10:52:37 +0200";

#[test]
fn info_line_is_tagged_stamped_and_joined() {
    let mut journal: Vec<String> = Vec::new();
    logs_at(&mut journal, "info", STAMP, &["a", "b"]);
    assert_eq!(
        journal,
        vec!["\x1b[34m\x1b[1m[INFO]\x1b[0m \x1b[90m[Tue, 1 Jul 2003 10:52:37 +0200]\x1b[0m a b".to_string()]
    );
}

#[test]
fn each_level_has_its_tag() {
    let mut journal: Vec<String> = Vec::new();
    logs_at(&mut journal, "error", "t", &["x"]);
    logs_at(&mut journal, "warn", "t", &["x"]);
    logs_at(&mut journal, "info", "t", &["x"]);
    logs_at(&mut journal, "debug", "t", &["x"]);
    logs_at(&mut journal, "", "t", &["x"]);
    logs_at(&mut journal, "ERROR", "t", &["x"]);
    assert_eq!(
        journal,
        vec![
            "\x1b[31m\x1b[1m[ERROR]\x1b[0m \x1b[90m[t]\x1b[0m x".to_string(),
            "\x1b[33m\x1b[1m[WARN]\x1b[0m \x1b[90m[t]\x1b[0m x".to_string(),
            "\x1b[34m\x1b[1m[INFO]\x1b[0m \x1b[90m[t]\x1b[0m x".to_string(),
            "\x1b[32m\x1b[1m[LOG]\x1b[0m \x1b[90m[t]\x1b[0m x".to_string(),
            "\x1b[32m\x1b[1m[LOG]\x1b[0m \x1b[90m[t]\x1b[0m x".to_string(),
            "\x1b[32m\x1b[1m[LOG]\x1b[0m \x1b[90m[t]\x1b[0m x".to_string(),
        ]
    );
}

#[test]
fn line_without_parts_ends_after_the_stamp() {
    let mut journal: Vec<String> = vec!["earlier".to_string()];
    logs_at(&mut journal, "warn", "", &[]);
    assert_eq!(
        journal,
        vec!["earlier".to_string(), "\x1b[33m\x1b[1m[WARN]\x1b[0m \x1b[90m[]\x1b[0m".to_string()]
    );
}

#[test]
fn logs_stamps_with_the_local_time() {
    let mut journal: Vec<String> = Vec::new();
    logs(&mut journal, "info", &["Server started on", "0.0.0.0:8080"]);
    assert_eq!(journal.len(), 1);
    let line = &journal[0];
    assert!(line.starts_with("\x1b[34m\x1b[1m[INFO]\x1b[0m \x1b[90m["));
    assert!(line.ends_with("]\x1b[0m Server started on 0.0.0.0:8080"));
    let stamp_len = line.len()
        - "\x1b[34m\x1b[1m[INFO]\x1b[0m \x1b[90m[".len()
        - "]\x1b[0m Server started on 0.0.0.0:8080".len();
    assert!(stamp_len >= 20);
}

#[test]
fn logs_undefined_yields_none_and_one_error_line() {
    let mut journal: Vec<String> = Vec::new();
    assert_eq!(logs_undefined(&mut journal, "ctx", "boom"), None);
    assert_eq!(journal.len(), 1);
    assert!(journal[0].starts_with("\x1b[31m\x1b[1m[ERROR]\x1b[0m \x1b[90m["));
    assert!(journal[0].ends_with("]\x1b[0m ctx boom"));
}
