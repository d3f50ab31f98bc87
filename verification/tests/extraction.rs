use guiding_light::extract::extract_added_lines;
use guiding_light::extract::extract_intent_from_text;
use guiding_light::extract::line_intent;

#[test]
fn added_lines_of_a_small_diff() {
    assert_eq!(extract_added_lines("--- a\n+++ b\n+hello\n-bye\n context"), "hello");
}

#[test]
fn added_lines_are_joined_by_line_feeds() {
    assert_eq!(extract_added_lines("+one\n two\n+three\n+\n+five\n"), "one\nthree\n\nfive");
}

#[test]
fn header_marker_wins_over_content() {
    assert_eq!(extract_added_lines("+++"), "");
    assert_eq!(extract_added_lines("+++ b/file.rs\n+kept"), "kept");
    assert_eq!(extract_added_lines("+++foo\n+bar"), "bar");
    assert_eq!(extract_added_lines("++++\n"), "");
}

#[test]
fn one_leading_plus_is_stripped() {
    assert_eq!(extract_added_lines("++x"), "+x");
    assert_eq!(extract_added_lines("+ +x"), " +x");
    assert_eq!(extract_added_lines("+"), "");
    assert_eq!(extract_added_lines("++"), "+");
}

#[test]
fn text_that_is_no_diff_adds_nothing() {
    assert_eq!(extract_added_lines(""), "");
    assert_eq!(extract_added_lines("plain text\nmore text"), "");
    assert_eq!(extract_added_lines("\n\n\n"), "");
    assert_eq!(extract_added_lines(" +indented"), "");
}

#[test]
fn line_feed_alone_parts_the_lines() {
    assert_eq!(extract_added_lines("+a\r\n+b"), "a\r\nb");
    assert_eq!(extract_added_lines("+a\r\n+b\r\n"), "a\r\nb\r");
    assert_eq!(extract_added_lines("+a\r\n+b\r"), "a\r\nb\r");
    assert_eq!(extract_added_lines("+a\rb\n+c"), "a\rb\nc");
    assert_eq!(extract_added_lines("+a\r+b"), "a\r+b");
    assert_eq!(extract_added_lines("\r+a\n+b"), "b");
}

#[test]
fn line_feed_at_the_end_adds_no_line() {
    assert_eq!(extract_added_lines("+a\n"), "a");
    assert_eq!(extract_added_lines("+a\n\n"), "a");
    assert_eq!(extract_added_lines("+a\n+"), "a\n");
}

#[test]
fn added_lines_are_the_plus_lines_of_the_split_text() {
    for diff in [
        "", "+", "+a", "+a\n", "\n+a", "+a\r\n+b", "--- a\n+++ b\n+x\n-y\n z\n++w\n+\n",
        "+++\n++\n+", "a\n\n\n+b\r", "+\u{e9}\n+\u{4e16}",
    ] {
        let kept: Vec<&str> = diff
            .split('\n')
            .filter(|l| l.starts_with('+') && !l.starts_with("+++"))
            .map(|l| &l[1..])
            .collect();
        assert_eq!(extract_added_lines(diff), kept.join("\n"), "{:?}", diff);
    }
}

#[test]
fn empty_added_lines_are_kept() {
    assert_eq!(extract_added_lines("+\n+\n+x"), "\n\nx");
    assert_eq!(extract_added_lines("+\n+"), "\n");
}

#[test]
fn intent_line_in_the_middle() {
    assert_eq!(
        extract_intent_from_text("foo\nIntent: ship it\nbar"),
        Some("ship it".to_string())
    );
}

#[test]
fn intent_prefix_in_any_case_value_as_written() {
    assert_eq!(
        extract_intent_from_text("  INTENT:   Ship IT Now  \n"),
        Some("Ship IT Now".to_string())
    );
    assert_eq!(
        extract_intent_from_text("GL-Intent: Hotfix"),
        Some("Hotfix".to_string())
    );
    assert_eq!(extract_intent_from_text("gl-intent:x:y"), Some("x:y".to_string()));
}

#[test]
fn first_intent_line_wins() {
    assert_eq!(
        extract_intent_from_text("intent: one\ngl-intent: two"),
        Some("one".to_string())
    );
    assert_eq!(
        extract_intent_from_text("gl-intent: two\r\nintent: one"),
        Some("two".to_string())
    );
    assert_eq!(extract_intent_from_text("x\r\nintent: one\r\n"), Some("one".to_string()));
}

#[test]
fn intent_may_be_empty() {
    assert_eq!(extract_intent_from_text("intent:"), Some(String::new()));
    assert_eq!(extract_intent_from_text("intent:   \nintent: later"), Some(String::new()));
}

#[test]
fn text_without_intent_line() {
    assert_eq!(extract_intent_from_text(""), None);
    assert_eq!(extract_intent_from_text("no such line\nat all"), None);
    assert_eq!(extract_intent_from_text("my intent: ship"), None);
    assert_eq!(extract_intent_from_text("intent : ship"), None);
    assert_eq!(extract_intent_from_text("intent"), None);
}

#[test]
fn line_intent_goes_by_the_lowered_form() {
    assert_eq!(line_intent("Intent: Ship", "intent: ship"), Some(Some("Ship".to_string())));
    assert_eq!(line_intent("GL-INTENT:a:b ", "gl-intent:a:b "), Some(Some("a:b".to_string())));
    assert_eq!(line_intent("intent:", "intent:"), Some(Some(String::new())));
    assert_eq!(line_intent("no colon", "intent:"), Some(None));
    assert_eq!(line_intent("Intent: Ship", "INTENT: SHIP"), None);
    assert_eq!(line_intent("my intent: x", "my intent: x"), None);
    assert_eq!(line_intent("", ""), None);
}
