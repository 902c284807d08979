use newsreader::reflow::wrap_string;

/// Every displayed line of `wrapped` is at most `width` characters.
fn check_lines(wrapped: &str, width: usize) {
    for line in wrapped.split('\n') {
        assert!(
            line.chars().count() <= width,
            "line {:?} longer than {}",
            line,
            width
        );
    }
}

/// `wrapped` is `original` with breaks injected: every break either
/// replaced a space of the original or follows an inserted hyphen, and all
/// other characters come through unchanged. Only for originals without a
/// literal hyphen.
fn check_breaks(original: &str, wrapped: &str) {
    let o: Vec<char> = original.chars().collect();
    let w: Vec<char> = wrapped.chars().collect();
    assert!(!o.contains(&'-'));
    let mut i: usize = 0;
    let mut j: usize = 0;
    while j < w.len() {
        if w[j] == '-' {
            assert_eq!(w[j + 1], '\n', "inserted hyphen not followed by a break");
            j += 2;
        } else if w[j] == '\n' {
            assert_eq!(o[i], ' ', "break does not coincide with an original space");
            i += 1;
            j += 1;
        } else {
            assert_eq!(w[j], o[i]);
            i += 1;
            j += 1;
        }
    }
    assert_eq!(i, o.len());
}

#[test]
fn short_text_is_unchanged() {
    assert_eq!(wrap_string(String::from("hello"), 10), "hello");
    assert_eq!(wrap_string(String::from(""), 3), "");
    // text exactly as long as the width also stays as it is
    assert_eq!(wrap_string(String::from("abcdefghij"), 10), "abcdefghij");
}

#[test]
fn break_lands_on_space_in_lookback_window() {
    // the space one place before the candidate becomes the break
    assert_eq!(wrap_string(String::from("aaaa bbbb cccc"), 10), "aaaa bbbb\ncccc");
}

#[test]
fn break_lands_on_space_at_candidate() {
    // the character at the candidate position itself is a space
    assert_eq!(wrap_string(String::from("abcde fghij klmno"), 5), "abcde\nfghij\nklmno");
}

#[test]
fn hyphen_split_without_space_in_reach() {
    // width below five leaves no lookback window at all
    assert_eq!(wrap_string(String::from("abcdefgh"), 4), "abc-\ndef-\ngh");
}

#[test]
fn width_one_puts_each_character_on_its_own_line() {
    assert_eq!(wrap_string(String::from("abc"), 1), "a\nb\nc");
}

#[test]
fn long_sentence_scenario_at_width_ten() {
    let wrapped = wrap_string(String::from("a very long sentence with many words"), 10);
    assert_eq!(wrapped, "a very lo-\nng senten-\nce with m-\nany words");
    check_lines(&wrapped, 10);
    check_breaks("a very long sentence with many words", &wrapped);
}

#[test]
fn lines_stay_within_width_across_inputs() {
    let samples = [
        "the quick brown fox jumps over the lazy dog",
        "incomprehensibilities notwithstanding",
        "a b c d e f g h i j k l m n o p",
        "words  with   several    spaces",
        "x",
    ];
    for text in samples {
        for width in 1..25usize {
            let wrapped = wrap_string(String::from(text), width);
            check_lines(&wrapped, width);
        }
    }
}

#[test]
fn breaks_preserve_text_across_inputs() {
    let samples = ["the quick brown fox jumps over the lazy dog", "abcdefghijklmnopqrstuvwxyz"];
    for text in samples {
        for width in 2..15usize {
            let wrapped = wrap_string(String::from(text), width);
            check_breaks(text, &wrapped);
        }
    }
}
