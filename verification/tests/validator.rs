use parser::batch::find_matches;
use parser::delimiter::is_delimiter;
use parser::extract::extract;
use parser::extract::find_match;
use parser::extract::get_match;
use parser::boundary::is_leading_char_valid;
use parser::boundary::is_trailing_char_valid;
use parser::extract::MatchOutcome;

const TEXT: &str = "the quick hello brown fox jumps";

fn text() -> String {
    TEXT.to_string()
}

#[test]
fn scenario_interior_word() {
    assert_eq!(find_match(10, 5, &text()), "hello");
    assert_eq!(
        extract(10, 5, &text()),
        MatchOutcome::Matched("hello".to_string())
    );
}

#[test]
fn scenario_second_interior_word() {
    assert_eq!(find_match(22, 3, &text()), "fox");
}

#[test]
fn scenario_start_of_text_word() {
    assert_eq!(find_match(0, 3, &text()), "the");
}

#[test]
fn scenario_fragment_inside_word() {
    assert_eq!(find_match(11, 4, &text()), "");
    assert_eq!(extract(11, 4, &text()), MatchOutcome::Rejected);
}

#[test]
fn scenario_batch_filtered() {
    let pairs = vec![(10, 5), (22, 3), (11, 4)];
    assert_eq!(find_matches(&pairs, &text()), vec!["hello", "fox"]);
}

#[test]
fn full_span_matches_whole_text() {
    let t = text();
    let n = t.chars().count();
    assert_eq!(find_match(0, n, &t), TEXT);
    assert_eq!(find_match(0, 5, &"hello".to_string()), "hello");
}

#[test]
fn zero_length_rejected() {
    assert_eq!(extract(0, 0, &text()), MatchOutcome::Rejected);
    assert_eq!(find_match(4, 0, &text()), "");
}

#[test]
fn out_of_range_rejected() {
    let t = text();
    let n = t.chars().count();
    assert_eq!(extract(0, n + 1, &t), MatchOutcome::Rejected);
    assert_eq!(extract(n, 1, &t), MatchOutcome::Rejected);
    assert_eq!(find_match(30, 2, &t), "");
    assert_eq!(find_match(usize::MAX, usize::MAX, &t), "");
}

#[test]
fn empty_text_rejects_everything() {
    let empty = String::new();
    assert_eq!(extract(0, 0, &empty), MatchOutcome::Rejected);
    assert_eq!(extract(0, 1, &empty), MatchOutcome::Rejected);
}

#[test]
fn end_of_text_word_accepted() {
    assert_eq!(find_match(26, 5, &text()), "jumps");
}

#[test]
fn end_of_text_fragment_rejected() {
    assert_eq!(find_match(27, 4, &text()), "");
}

#[test]
fn start_of_text_fragment_rejected() {
    assert_eq!(find_match(0, 2, &text()), "");
}

#[test]
fn interior_flanked_by_punctuation_accepted() {
    let t = "stop!go?now".to_string();
    assert_eq!(find_match(5, 2, &t), "go");
}

#[test]
fn interior_fragment_one_bad_flank_rejected() {
    let t = "stop!gone now".to_string();
    assert_eq!(find_match(5, 2, &t), "");
    let t2 = "stop ogo!now".to_string();
    assert_eq!(find_match(6, 2, &t2), "");
}

#[test]
fn positions_are_character_positions() {
    let t = "fõø bαr tail".to_string();
    assert_eq!(find_match(4, 3, &t), "bαr");
    assert_eq!(find_match(0, 3, &t), "fõø");
    assert_eq!(find_match(8, 4, &t), "tail");
}

#[test]
fn get_match_returns_the_spanned_characters() {
    assert_eq!(get_match(10, 15, &text()), "hello");
    assert_eq!(get_match(0, 0, &text()), "");
    let t = "fõø bαr".to_string();
    assert_eq!(get_match(4, 7, &t), "bαr");
}

#[test]
fn delimiter_set_membership() {
    for c in [
        ' ', '.', ',', '!', '?', '#', '$', '%', '^', '&', '@', '(', ')', '>', '<', '/', '\\',
        '|', '[', ']', '{', '}', '~', '*', '-', '_', '+', '=', ':', ';', '"', '\'', '`',
    ] {
        assert!(is_delimiter(c));
    }
    for c in ['a', 'Z', '0', '9', 'é', '\n', '\t'] {
        assert!(!is_delimiter(c));
    }
}

#[test]
fn batch_preserves_input_order() {
    let t = text();
    let pairs = vec![(26, 5), (0, 3), (10, 5)];
    assert_eq!(find_matches(&pairs, &t), vec!["jumps", "the", "hello"]);
}

#[test]
fn batch_of_nothing_and_of_rejects() {
    let t = text();
    assert_eq!(find_matches(&vec![], &t), Vec::<String>::new());
    let pairs = vec![(11, 4), (1, 2), (0, 0)];
    assert_eq!(find_matches(&pairs, &t), Vec::<String>::new());
}

#[test]
fn batch_keeps_duplicates() {
    let t = text();
    let pairs = vec![(22, 3), (22, 3)];
    assert_eq!(find_matches(&pairs, &t), vec!["fox", "fox"]);
}

#[test]
fn leading_check_reads_the_previous_character() {
    let t = text();
    assert!(is_leading_char_valid(10, &t));
    assert!(!is_leading_char_valid(11, &t));
}

#[test]
fn trailing_check_reads_the_character_at_the_edge() {
    let t = text();
    assert!(is_trailing_char_valid(15, &t));
    assert!(!is_trailing_char_valid(14, &t));
}
