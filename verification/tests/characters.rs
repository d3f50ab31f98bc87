use guiding_light::chars::chars_of;
use guiding_light::chars::string_of;
use guiding_light::chars::whitespace;
use guiding_light::text::contains;
use guiding_light::text::has_prefix;
use guiding_light::text::line_end;
use guiding_light::text::skip_first;
use guiding_light::text::trim_range;

fn chars(s: &str) -> Vec<char> {
    s.chars().collect()
}

#[test]
fn whitespace_is_what_unicode_calls_white_space() {
    for n in 0..=0x10FFFFu32 {
        if let Some(c) = char::from_u32(n) {
            assert_eq!(whitespace(c), c.is_whitespace(), "U+{:04X}", n);
        }
    }
}

#[test]
fn characters_of_a_string_and_back() {
    let s = "a\u{e9}\u{4e16}\u{1f600}b";
    let v = chars_of(s);
    assert_eq!(v, chars(s));
    assert_eq!(string_of(&v, 0, v.len()), s);
    assert_eq!(string_of(&v, 1, 4), "\u{e9}\u{4e16}\u{1f600}");
    assert_eq!(string_of(&v, 2, 2), "");
    assert_eq!(chars_of(""), Vec::<char>::new());
}

#[test]
fn prefix_of_a_range() {
    let s = chars("xxintent: y");
    assert!(has_prefix(&s, 2, s.len(), &chars("intent:")));
    assert!(!has_prefix(&s, 0, s.len(), &chars("intent:")));
    assert!(!has_prefix(&s, 2, 8, &chars("intent:")));
    assert!(has_prefix(&s, 2, 9, &chars("intent:")));
    assert!(has_prefix(&s, 5, 5, &chars("")));
}

#[test]
fn substring_search() {
    assert!(contains(&chars("hello world"), &chars("lo w")));
    assert!(contains(&chars("hello"), &chars("hello")));
    assert!(contains(&chars("hello"), &chars("")));
    assert!(contains(&chars(""), &chars("")));
    assert!(contains(&chars("aab"), &chars("ab")));
    assert!(!contains(&chars("hello"), &chars("hello!")));
    assert!(!contains(&chars(""), &chars("a")));
    assert!(!contains(&chars("abcabc"), &chars("cb")));
}

#[test]
fn trimming_a_range() {
    let s = chars("  \t a b \u{a0}\n");
    assert_eq!(trim_range(&s, 0, s.len()), (4, 7));
    assert_eq!(trim_range(&s, 5, 6), (6, 6));
    let blank = chars(" \n\t");
    let (a, b) = trim_range(&blank, 0, blank.len());
    assert_eq!(a, b);
    assert_eq!(trim_range(&chars("ab"), 0, 2), (0, 2));
    assert_eq!(trim_range(&chars(""), 0, 0), (0, 0));
}

#[test]
fn position_behind_the_first_colon() {
    let s = chars("a:b:c");
    assert_eq!(skip_first(&s, 0, s.len(), ':'), Some(2));
    assert_eq!(skip_first(&s, 2, s.len(), ':'), Some(4));
    assert_eq!(skip_first(&s, 4, s.len(), ':'), None);
    assert_eq!(skip_first(&s, 0, 1, ':'), None);
}

#[test]
fn lines_end_at_line_feeds() {
    let s = chars("foo\nbar\r\n\nbaz\r");
    assert_eq!(line_end(&s, 0), 3);
    assert_eq!(line_end(&s, 4), 8);
    assert_eq!(line_end(&s, 9), 9);
    assert_eq!(line_end(&s, 10), 14);
    assert_eq!(line_end(&s, 14), 14);
    assert_eq!(line_end(&chars(""), 0), 0);
}

#[test]
fn lines_are_the_pieces_between_line_feeds() {
    for text in ["", "a", "a\n", "a\nb", "a\r\nb\r\n", "\n\n", "a\rb\n", "\r\n", "x\r", "\r\r\n"] {
        let s = chars(text);
        let mut ours: Vec<String> = Vec::new();
        let mut pos = 0;
        loop {
            let end = line_end(&s, pos);
            ours.push(string_of(&s, pos, end));
            if end == s.len() {
                break;
            }
            pos = end + 1;
        }
        let theirs: Vec<String> = text.split('\n').map(|l| l.to_string()).collect();
        assert_eq!(ours, theirs, "{:?}", text);
    }
}
