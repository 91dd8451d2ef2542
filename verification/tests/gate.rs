use smart_tags::confirm::confirmation_granted;
use smart_tags::handle::TagFormat;
use smart_tags::plan::{BatchPlan, TrackPlanEntry};
use smart_tags::run::run_confirmed;

#[test]
fn bare_token_confirms() {
    assert!(confirmation_granted("y"));
}

#[test]
fn token_with_newline_confirms() {
    assert!(confirmation_granted("y\n"));
}

#[test]
fn token_with_surrounding_whitespace_confirms() {
    assert!(confirmation_granted(" \ty \r\n"));
}

#[test]
fn token_with_unicode_whitespace_confirms() {
    // str::trim removes all Unicode White_Space; confirmation does too.
    assert!(confirmation_granted("y\u{000B}"));
    assert!(confirmation_granted("y\u{000C}"));
    assert!(confirmation_granted("\u{00A0}y\u{2028}"));
    assert!(confirmation_granted("\u{2003}y\u{3000}"));
    assert!(confirmation_granted("y\u{0085}"));
}

#[test]
fn gate_matches_std_trim() {
    for line in ["y", "y\n", " y ", "\u{205F}y\u{202F}", "n", "Y", "yes", "", "  ", "y y"] {
        assert_eq!(confirmation_granted(line), line.trim() == "y");
    }
}

#[test]
fn empty_line_declines() {
    assert!(!confirmation_granted(""));
}

#[test]
fn whitespace_only_declines() {
    assert!(!confirmation_granted(" \n"));
}

#[test]
fn negative_answer_declines() {
    assert!(!confirmation_granted("n\n"));
}

#[test]
fn longer_word_declines() {
    assert!(!confirmation_granted("yes\n"));
}

#[test]
fn doubled_token_declines() {
    assert!(!confirmation_granted("y y\n"));
}

#[test]
fn upper_case_declines() {
    assert!(!confirmation_granted("Y\n"));
}

#[test]
fn declined_run_writes_nothing() {
    // The entry points at a file that does not exist: had any write been
    // attempted, the outcome would have said so. A declined confirmation
    // never gets that far.
    let plan = BatchPlan {
        entries: vec![TrackPlanEntry {
            path: "no_such_dir_gate/2-intro.mp3".to_owned(),
            name: "2-intro.mp3".to_owned(),
            format: TagFormat::Mp3,
            track: 2,
        }],
    };
    let r = run_confirmed(&plan, "n\n", "Ada", "Demo");
    assert!(r.is_none());
}
