use rustyrepl::line::{
    classify_line, command_tokens, is_space, split_words, LineClass, PROGRAM_NAME,
};

#[test]
fn split_words_skips_runs_of_whitespace() {
    assert_eq!(vec!["Test", "a", "b"], split_words("  Test  a\tb \r\n"));
}

#[test]
fn split_words_of_empty_and_blank_lines() {
    assert!(split_words("").is_empty());
    assert!(split_words(" \t  ").is_empty());
}

#[test]
fn split_words_keeps_non_ascii_text() {
    assert_eq!(vec!["héllo", "wörld"], split_words("héllo wörld"));
}

#[test]
fn classify_blank_lines() {
    assert!(matches!(classify_line(""), LineClass::Blank));
    assert!(matches!(classify_line("    "), LineClass::Blank));
}

#[test]
fn classify_gives_lowercase_first_word() {
    match classify_line("  QUIT now") {
        LineClass::Candidate(head) => assert_eq!("quit", head),
        LineClass::Blank => panic!("a line with words is not blank"),
    }
    match classify_line("ÉXIT") {
        LineClass::Candidate(head) => assert_eq!("éxit", head),
        LineClass::Blank => panic!("a line with words is not blank"),
    }
}

#[test]
fn command_tokens_start_with_program_name() {
    assert_eq!(
        vec!["repl-interface", "test", "--flag", "x"],
        command_tokens("test  --flag x")
    );
    assert_eq!(vec![PROGRAM_NAME], command_tokens("   "));
}

#[test]
fn unicode_whitespace_only_lines_are_blank() {
    assert!(matches!(classify_line("\u{b}"), LineClass::Blank));
    assert!(matches!(classify_line("\u{3000}"), LineClass::Blank));
    assert!(matches!(classify_line("\u{a0} \u{85}\u{2028}"), LineClass::Blank));
}

#[test]
fn unicode_whitespace_separates_words() {
    assert_eq!(vec!["a", "b"], split_words("a\u{a0}b"));
    assert_eq!(vec!["a", "b"], split_words("a\u{b}b"));
    assert_eq!(vec!["repl-interface", "x", "y"], command_tokens("\u{3000}x\u{2003}y\u{202f}"));
}

#[test]
fn is_space_agrees_with_char_is_whitespace() {
    for c in (0u32..=0x10FFFF).filter_map(char::from_u32) {
        assert_eq!(c.is_whitespace(), is_space(c), "disagreement on U+{:04X}", c as u32);
    }
}
