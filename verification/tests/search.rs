use wl_snippets::fuzzy::is_fuzzy_match;
use wl_snippets::icons::{get_icon, get_language_icon};
use wl_snippets::search::{get_search, replace_placeholders};
use wl_snippets::text::{is_blank, parse_usize, replace, str_eq, usize_to_string};

#[test]
fn get_search_splits_at_first_space() {
    let q = get_search("flow state holder".to_string());
    assert_eq!(q.keyword, Some("flow".to_string()));
    assert_eq!(q.search_text, "state holder");
}

#[test]
fn get_search_without_space_has_no_keyword() {
    let q = get_search("flow".to_string());
    assert_eq!(q.keyword, None);
    assert_eq!(q.search_text, "flow");
}

#[test]
fn get_search_empty_input() {
    let q = get_search(String::new());
    assert_eq!(q.keyword, None);
    assert_eq!(q.search_text, "");
}

#[test]
fn get_search_trailing_space_keeps_empty_text() {
    let q = get_search("flow ".to_string());
    assert_eq!(q.keyword, Some("flow".to_string()));
    assert_eq!(q.search_text, "");
}

#[test]
fn replace_substitutes_every_occurrence() {
    let r = replace("a {%0} b {%0} c", "{%0}", "x");
    assert_eq!(r, "a x b x c");
}

#[test]
fn replace_is_leftmost_and_non_overlapping() {
    let r = replace("aaa", "aa", "b");
    assert_eq!(r, "ba");
}

#[test]
fn placeholders_are_replaced_positionally() {
    let body = "let {%0} = MutableStateFlow({%1})";
    let r = replace_placeholders(body, "name value");
    assert_eq!(r, "let name = MutableStateFlow(value)");
}

#[test]
fn placeholders_without_words_stay() {
    let r = replace_placeholders("let {%0} = 1", "");
    assert_eq!(r, "let {%0} = 1");
}

#[test]
fn extra_words_are_ignored() {
    let r = replace_placeholders("use {%0}", "a b c");
    assert_eq!(r, "use a");
}

#[test]
fn repeated_placeholder_uses_same_word() {
    let r = replace_placeholders("{%1} {%0} {%1}", "x y");
    assert_eq!(r, "y x y");
}

#[test]
fn fuzzy_match_accepts_subsequences() {
    assert!(is_fuzzy_match("axbycz", "abc"));
    assert!(is_fuzzy_match("axbycz", "xyz"));
}

#[test]
fn fuzzy_match_rejects_missing_characters() {
    assert!(!is_fuzzy_match("abc", "abx"));
    assert!(!is_fuzzy_match("", "a"));
}

#[test]
fn fuzzy_match_accepts_empty_pattern() {
    assert!(is_fuzzy_match("anything", ""));
}

#[test]
fn str_eq_compares_contents() {
    assert!(str_eq("flow", "flow"));
    assert!(!str_eq("flow", "flo"));
    assert!(!str_eq("flow", "flop"));
}

#[test]
fn blankness_follows_trim() {
    assert!(is_blank(""));
    assert!(is_blank("  \t "));
    assert!(!is_blank(" a "));
}

#[test]
fn decimal_round_trip() {
    assert_eq!(usize_to_string(0), "0");
    assert_eq!(usize_to_string(42), "42");
    assert_eq!(usize_to_string(1000), "1000");
    assert_eq!(parse_usize("0"), Some(0));
    assert_eq!(parse_usize("42"), Some(42));
    assert_eq!(parse_usize(usize_to_string(usize::MAX).as_str()), Some(usize::MAX));
}

#[test]
fn parse_rejects_bad_input() {
    assert_eq!(parse_usize(""), None);
    assert_eq!(parse_usize("12a"), None);
    assert_eq!(parse_usize("-3"), None);
    assert_eq!(parse_usize("99999999999999999999999999"), None);
}

#[test]
fn icons_resolve_inside_the_extension_dir() {
    assert_eq!(get_icon("/ext", "plus.svg"), "/ext/src/icons/plus.svg");
    assert_eq!(get_language_icon("/ext", "rust"), "/ext/src/icons/rust.svg");
    assert_eq!(get_language_icon("/ext", "other"), "/ext/src/icons/default.svg");
}
