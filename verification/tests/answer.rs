use ddi::answer::{is_consent, process_answer};

#[test]
fn lone_y_is_consent() {
    assert!(process_answer("y"));
}

#[test]
fn upper_case_y_is_consent() {
    assert!(process_answer("Y"));
}

#[test]
fn surrounding_whitespace_is_ignored() {
    assert!(process_answer("y\n"));
    assert!(process_answer("  y  "));
    assert!(process_answer("\tY\r\n"));
    assert!(process_answer(" \u{2003}y\u{a0}"));
}

#[test]
fn y_before_empty_lines_is_consent() {
    assert!(process_answer("Y\n\n"));
    assert!(process_answer("\n\ny\n"));
}

#[test]
fn empty_reply_is_refusal() {
    assert!(!process_answer(""));
    assert!(!process_answer("\n"));
    assert!(!process_answer("   "));
}

#[test]
fn yes_is_refusal() {
    assert!(!process_answer("yes"));
    assert!(!process_answer("YES\n"));
}

#[test]
fn n_is_refusal() {
    assert!(!process_answer("n"));
    assert!(!process_answer("N"));
    assert!(!process_answer("N\n"));
}

#[test]
fn y_with_trailing_content_is_refusal() {
    assert!(!process_answer("Y abc"));
    assert!(!process_answer("y y"));
    assert!(!process_answer("y."));
    assert!(!process_answer("yy"));
}

#[test]
fn look_alikes_are_refusal() {
    assert!(!process_answer("ý"));
    assert!(!process_answer("у"));
    assert!(!process_answer("ｙ"));
}

#[test]
fn is_consent_takes_the_folded_reply_only() {
    assert!(is_consent("y"));
    assert!(!is_consent("Y"));
    assert!(!is_consent(" y"));
    assert!(!is_consent("y\n"));
    assert!(!is_consent(""));
    assert!(!is_consent("yes"));
    assert!(!is_consent("n"));
}
