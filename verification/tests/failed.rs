use conti::failed::{is_blocked, parse_failed, record_failure, FailedUpdate};

fn update(container: &str, digest: &str) -> FailedUpdate {
    FailedUpdate { container: container.to_string(), digest: digest.to_string() }
}

#[test]
fn log_has_a_line_for_each_failure() {
    let log = record_failure("", "web", "sha256:aa");
    assert_eq!(log, "web sha256:aa\n");
    let log = record_failure(&log, "db", "sha256:bb");
    assert_eq!(log, "web sha256:aa\ndb sha256:bb\n");
    assert_eq!(parse_failed(&log), vec![update("web", "sha256:aa"), update("db", "sha256:bb")]);
}

#[test]
fn unfinished_line_is_finished_first() {
    let log = record_failure("web sha256:aa", "db", "sha256:bb");
    assert_eq!(log, "web sha256:aa\ndb sha256:bb\n");
}

#[test]
fn log_edited_by_hand_is_read() {
    let log = "\n  web   sha256:aa  \r\n# comment\nword\n\n";
    assert_eq!(parse_failed(log), vec![update("web", "sha256:aa"), update("#", "comment")]);
    assert_eq!(parse_failed(""), Vec::<FailedUpdate>::new());
}

#[test]
fn recorded_failure_blocks_only_itself() {
    let failed = parse_failed(&record_failure("db sha256:cc\n", "web", "sha256:aa"));
    assert!(is_blocked(&failed, "web", "sha256:aa"));
    assert!(is_blocked(&failed, "db", "sha256:cc"));
    assert!(!is_blocked(&failed, "web", "sha256:bb"));
    assert!(!is_blocked(&failed, "web", "sha256:cc"));
    assert!(!is_blocked(&failed, "other", "sha256:aa"));
}

#[test]
fn removed_line_lifts_the_block() {
    let log = record_failure(&record_failure("", "web", "sha256:aa"), "db", "sha256:bb");
    let edited = log.replace("web sha256:aa\n", "");
    assert!(is_blocked(&parse_failed(&log), "web", "sha256:aa"));
    assert!(!is_blocked(&parse_failed(&edited), "web", "sha256:aa"));
    assert!(is_blocked(&parse_failed(&edited), "db", "sha256:bb"));
}

#[test]
fn digest_with_blanks_is_read_back() {
    let log = record_failure("", "web", "sha256: aa  bb");
    assert_eq!(parse_failed(&log), vec![update("web", "sha256: aa  bb")]);
    assert!(is_blocked(&parse_failed(&log), "web", "sha256: aa  bb"));
}
