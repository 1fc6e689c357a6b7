use kuri_uninstaller::item::ProgramInfo;
use kuri_uninstaller::terms::generate_search_terms;
use kuri_uninstaller::text::{remove_spaces, str_contains, str_eq, str_lex_le};

fn identity(name: &str, location: Option<&str>) -> ProgramInfo {
    ProgramInfo {
        name: name.to_string(),
        version: "1.0".to_string(),
        install_location: location.map(|l| l.to_string()),
    }
}

#[test]
fn terms_for_two_word_name_with_install_folder() {
    let program = identity("Foo Bar", Some("/opt/apps/FooBarApp"));
    let terms = generate_search_terms(&program);
    assert_eq!(terms, vec!["foo bar".to_string(), "foobar".to_string(), "foobarapp".to_string()]);
}

#[test]
fn terms_collapse_adjacent_duplicates_only() {
    // one-word name: the spaceless form equals the name, so the two collapse
    let program = identity("Foo", None);
    let terms = generate_search_terms(&program);
    assert_eq!(terms, vec!["foo".to_string()]);
}

#[test]
fn terms_keep_non_adjacent_duplicates() {
    // the folder name repeats the first token, but stands after the second:
    // only adjacent duplicates are removed
    let program = identity("Foo Bar", Some("/opt/apps/Foo Bar"));
    let terms = generate_search_terms(&program);
    assert_eq!(terms, vec!["foo bar".to_string(), "foobar".to_string(), "foo bar".to_string()]);
}

#[test]
fn empty_name_yields_no_tokens() {
    // an empty token would match every name; none is ever produced
    let program = identity("", None);
    assert_eq!(generate_search_terms(&program), Vec::<String>::new());
}

#[test]
fn all_space_name_drops_the_empty_spaceless_token() {
    let program = identity("   ", None);
    assert_eq!(generate_search_terms(&program), vec!["   ".to_string()]);
}

#[test]
fn empty_folder_component_is_not_a_token() {
    let program = identity("", Some("/opt/apps/FooBarApp"));
    assert_eq!(generate_search_terms(&program), vec!["foobarapp".to_string()]);
}

#[test]
fn terms_without_install_location() {
    let program = identity("Some Tool", None);
    let terms = generate_search_terms(&program);
    assert_eq!(terms, vec!["some tool".to_string(), "sometool".to_string()]);
}

#[test]
fn remove_spaces_drops_every_space() {
    assert_eq!(remove_spaces(" a b  c "), "abc".to_string());
    assert_eq!(remove_spaces(""), "".to_string());
    assert_eq!(remove_spaces("nospace"), "nospace".to_string());
}

#[test]
fn str_contains_is_substring_containment() {
    assert!(str_contains("foobarapp", "bar"));
    assert!(str_contains("foobar", "foobar"));
    assert!(str_contains("anything", ""));
    assert!(!str_contains("foo", "foobar"));
    assert!(!str_contains("foobar", "rab"));
}

#[test]
fn str_lex_le_orders_lexicographically() {
    assert!(str_lex_le("", "a"));
    assert!(str_lex_le("abc", "abd"));
    assert!(str_lex_le("ab", "abc"));
    assert!(!str_lex_le("abd", "abc"));
    assert!(str_lex_le("same", "same"));
}

#[test]
fn str_eq_compares_contents() {
    assert!(str_eq("abc", "abc"));
    assert!(!str_eq("abc", "abd"));
    assert!(!str_eq("abc", "ab"));
}
