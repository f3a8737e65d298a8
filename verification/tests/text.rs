use keypairer::text::{chars_of, join_text, same_text, substitute};

#[test]
fn substitute_replaces_one_placeholder() {
    assert_eq!(substitute("error: {err}", "{err}", "disk full"), "error: disk full");
}

#[test]
fn substitute_replaces_every_occurrence() {
    assert_eq!(substitute("{x}-{x}-{x}", "{x}", "ab"), "ab-ab-ab");
    assert_eq!(substitute("{x}{x}", "{x}", ""), "");
}

#[test]
fn substitute_leaves_other_text_alone() {
    assert_eq!(substitute("nothing here", "{err}", "x"), "nothing here");
    assert_eq!(substitute("{er}", "{err}", "x"), "{er}");
    assert_eq!(substitute("", "{err}", "x"), "");
    assert_eq!(substitute("ab", "abc", "x"), "ab");
}

#[test]
fn substitute_reads_from_left_to_right_without_overlap() {
    assert_eq!(substitute("aaa", "aa", "X"), "Xa");
    assert_eq!(substitute("aaaa", "aa", "X"), "XX");
    assert_eq!(substitute("abab", "ab", "ba"), "baba");
}

#[test]
fn substitute_does_not_read_its_own_output_again() {
    assert_eq!(substitute("{a}", "{a}", "{a}{a}"), "{a}{a}");
}

#[test]
fn substitute_with_an_empty_placeholder_changes_nothing() {
    assert_eq!(substitute("abc", "", "X"), "abc");
}

#[test]
fn substitute_works_on_characters_not_bytes() {
    assert_eq!(substitute("공개키 저장: {path}", "{path}", "키.pub"), "공개키 저장: 키.pub");
    assert_eq!(substitute("a키b키c", "키", "-"), "a-b-c");
}

#[test]
fn same_text_compares_characters() {
    assert!(same_text("en", "en"));
    assert!(!same_text("en", "EN"));
    assert!(!same_text("en", "en "));
    assert!(same_text("", ""));
}

#[test]
fn chars_of_lists_the_characters() {
    assert_eq!(chars_of("a키b"), vec!['a', '키', 'b']);
    assert!(chars_of("").is_empty());
}

#[test]
fn join_text_puts_one_text_after_the_other() {
    assert_eq!(join_text("mlkem", ".pub"), "mlkem.pub");
    assert_eq!(join_text("", ""), "");
}
