use pokespeare::text::{fold_newlines, same_text};

#[test]
fn line_breaks_are_folded_into_spaces() {
    assert_eq!(fold_newlines("It was created\nby a scientist."), "It was created by a scientist.");
    assert_eq!(fold_newlines("a\nb\n\nc\n"), "a b  c ");
    assert_eq!(fold_newlines("\n"), " ");
    assert_eq!(fold_newlines("\n\n\n"), "   ");
}

#[test]
fn text_without_line_breaks_is_kept() {
    assert_eq!(fold_newlines(""), "");
    assert_eq!(fold_newlines("plain text"), "plain text");
    assert_eq!(fold_newlines("tab\tand\u{c}feed"), "tab\tand\u{c}feed");
    assert_eq!(fold_newlines("électricité ほっぺ 🦀"), "électricité ほっぺ 🦀");
}

#[test]
fn only_the_line_feed_counts_as_a_line_break() {
    assert_eq!(fold_newlines("a\r\nb"), "a\r b");
    assert_eq!(fold_newlines("a\\nb"), "a\\nb");
    assert_eq!(fold_newlines("é\nほ\n🦀"), "é ほ 🦀");
}

#[test]
fn folding_keeps_the_number_of_characters() {
    for text in ["", "\n", "a\nb", "é\nほ\n🦀\n", "no break"] {
        let folded = fold_newlines(text);
        assert_eq!(folded.chars().count(), text.chars().count());
        assert!(!folded.contains('\n'));
    }
}

#[test]
fn same_text_compares_every_character() {
    assert!(same_text("", ""));
    assert!(same_text("en", "en"));
    assert!(same_text("électricité 🦀", "électricité 🦀"));
    assert!(!same_text("en", "fr"));
    assert!(!same_text("en", "e"));
    assert!(!same_text("e", "en"));
    assert!(!same_text("en", "eN"));
    assert!(!same_text("en", ""));
    assert!(!same_text("cave", "cavé"));
    assert!(!same_text("é", "e\u{301}"));
}
