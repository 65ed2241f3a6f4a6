use acc_linker_bot::text::{chars_of, contains_phrase, same_text, split_on};

#[test]
fn a_string_gives_its_characters() {
    assert_eq!(chars_of("abc"), vec!['a', 'b', 'c']);
    assert_eq!(chars_of(""), Vec::<char>::new());
    assert_eq!(chars_of("жук!"), vec!['ж', 'у', 'к', '!']);
}

#[test]
fn a_phrase_is_found_wherever_it_stands() {
    assert!(contains_phrase("I love lor-bot!", "I love lor-bot!"));
    assert!(contains_phrase("so: I love lor-bot! yes", "I love lor-bot!"));
    assert!(contains_phrase("xxI love lor-bot!", "I love lor-bot!"));
    assert!(contains_phrase("I love lor-boI love lor-bot!", "I love lor-bot!"));
    assert!(contains_phrase("anything", ""));
    assert!(contains_phrase("", ""));
    assert!(contains_phrase("привет, мир", "мир"));
}

#[test]
fn a_phrase_is_not_found_where_it_does_not_stand() {
    assert!(!contains_phrase("I love lor-bot", "I love lor-bot!"));
    assert!(!contains_phrase("I LOVE LOR-BOT!", "I love lor-bot!"));
    assert!(!contains_phrase("I love  lor-bot!", "I love lor-bot!"));
    assert!(!contains_phrase("", "I love lor-bot!"));
    assert!(!contains_phrase("short", "much longer than that"));
}

#[test]
fn texts_are_the_same_letter_for_letter() {
    assert!(same_text("link", "link"));
    assert!(same_text("", ""));
    assert!(!same_text("link", "Link"));
    assert!(!same_text("link", "links"));
    assert!(!same_text("link", ""));
    assert!(same_text("жук", "жук"));
}

#[test]
fn a_text_is_cut_at_every_separator() {
    assert_eq!(split_on("link LinuxOrgRu alice", ' '), vec!["link", "LinuxOrgRu", "alice"]);
    assert_eq!(split_on("a  b", ' '), vec!["a", "", "b"]);
    assert_eq!(split_on(" a ", ' '), vec!["", "a", ""]);
    assert_eq!(split_on("", ' '), vec![""]);
    assert_eq!(split_on(" ", ' '), vec!["", ""]);
    assert_eq!(split_on("a!b", ' '), vec!["a!b"]);
    assert_eq!(split_on("!link x", ' '), vec!["!link", "x"]);
    assert_eq!(split_on("жук и!", ' '), vec!["жук", "и!"]);
    assert_eq!(split_on("a,b,,c", ','), vec!["a", "b", "", "c"]);
}
