use goat::text::basename;
use goat::text::join_with_spaces;
use goat::text::replace_placeholder;
use goat::text::split_words;
use goat::text::trim;

fn strings(words: &[&str]) -> Vec<String> {
    words.iter().map(|w| w.to_string()).collect()
}

#[test]
fn split_words_basic() {
    assert_eq!(split_words("pacman -S vim"), strings(&["pacman", "-S", "vim"]));
}

#[test]
fn split_words_collapses_runs_and_edges() {
    assert_eq!(split_words("  a\t\tb \n c  "), strings(&["a", "b", "c"]));
}

#[test]
fn split_words_empty_and_blank() {
    assert_eq!(split_words(""), strings(&[]));
    assert_eq!(split_words(" \t\n\r"), strings(&[]));
}

#[test]
fn trim_strips_both_ends_only() {
    assert_eq!(trim("  box1\n"), "box1");
    assert_eq!(trim("box1"), "box1");
    assert_eq!(trim("\t a b \r\n"), "a b");
    assert_eq!(trim("   "), "");
}

#[test]
fn join_with_single_spaces() {
    assert_eq!(join_with_spaces(&strings(&["vim", "git"])), "vim git");
    assert_eq!(join_with_spaces(&strings(&["solo"])), "solo");
    assert_eq!(join_with_spaces(&strings(&[])), "");
}

#[test]
fn replace_every_placeholder() {
    assert_eq!(replace_placeholder("a {} b {}", "x"), "a x b x");
    assert_eq!(replace_placeholder("no placeholder", "x"), "no placeholder");
    assert_eq!(replace_placeholder("{}", ""), "");
    assert_eq!(replace_placeholder("{ }", "x"), "{ }");
}

#[test]
fn basename_takes_final_component() {
    assert_eq!(basename("/etc/goat/stages/custom.lua"), "custom.lua");
    assert_eq!(basename("custom.lua"), "custom.lua");
    assert_eq!(basename("/trailing/"), "");
    assert_eq!(basename(""), "");
}
