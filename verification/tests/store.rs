use wl_snippets::snippets::{
    add_snippet, delete_snippet, edit_snippet, get_snippets_dir, get_snippets_path, Snippet,
};

fn sample(id: usize, name: &str, keyword: &str, language: &str, body: &str) -> Snippet {
    Snippet::new(
        id,
        name.to_string(),
        keyword.to_string(),
        language.to_string(),
        body.to_string(),
    )
}

#[test]
fn new_keeps_fields() {
    let s = sample(7, "Flow", "flow", "kotlin", "val x = MutableStateFlow({%0})");
    assert_eq!(s.id, 7);
    assert_eq!(s.name, "Flow");
    assert_eq!(s.keyword, "flow");
    assert_eq!(s.languague, "kotlin");
    assert_eq!(s.snippet, "val x = MutableStateFlow({%0})");
}

#[test]
fn add_to_empty_store_uses_id_zero() {
    let out = add_snippet(
        Vec::new(),
        "Flow".to_string(),
        "kotlin".to_string(),
        "flow".to_string(),
        "body".to_string(),
    );
    assert_eq!(out.len(), 1);
    assert_eq!(out[0].id, 0);
    assert_eq!(out[0].name, "Flow");
    assert_eq!(out[0].keyword, "flow");
    assert_eq!(out[0].languague, "kotlin");
    assert_eq!(out[0].snippet, "body");
}

#[test]
fn add_assigns_max_plus_one() {
    let store = vec![sample(4, "a", "a", "rust", "x"), sample(9, "b", "b", "go", "y"),
        sample(2, "c", "c", "js", "z")];
    let out = add_snippet(
        store,
        "d".to_string(),
        "python".to_string(),
        "dd".to_string(),
        "w".to_string(),
    );
    assert_eq!(out.len(), 4);
    assert_eq!(out[3].id, 10);
    assert_eq!(out[3].keyword, "dd");
    assert_eq!(out[3].languague, "python");
    assert_eq!(out[0].id, 4);
    assert_eq!(out[1].id, 9);
    assert_eq!(out[2].id, 2);
}

#[test]
fn delete_removes_only_matching_id() {
    let store = vec![sample(0, "a", "a", "rust", "x"), sample(1, "b", "b", "go", "y"),
        sample(2, "c", "c", "js", "z")];
    let out = delete_snippet(store, 1);
    assert_eq!(out.len(), 2);
    assert_eq!(out[0].id, 0);
    assert_eq!(out[0].name, "a");
    assert_eq!(out[1].id, 2);
    assert_eq!(out[1].name, "c");
}

#[test]
fn delete_missing_id_changes_nothing() {
    let store = vec![sample(0, "a", "a", "rust", "x"), sample(1, "b", "b", "go", "y")];
    let out = delete_snippet(store, 5);
    assert_eq!(out.len(), 2);
    assert_eq!(out[0].id, 0);
    assert_eq!(out[1].id, 1);
}

#[test]
fn edit_replaces_fields_and_keeps_id_and_position() {
    let store = vec![sample(0, "a", "a", "rust", "x"), sample(1, "b", "b", "go", "y"),
        sample(2, "c", "c", "js", "z")];
    let out = edit_snippet(
        store,
        1,
        "B".to_string(),
        "bb".to_string(),
        "kotlin".to_string(),
        "Y".to_string(),
    );
    assert_eq!(out.len(), 3);
    assert_eq!(out[0].name, "a");
    assert_eq!(out[1].id, 1);
    assert_eq!(out[1].name, "B");
    assert_eq!(out[1].keyword, "bb");
    assert_eq!(out[1].languague, "kotlin");
    assert_eq!(out[1].snippet, "Y");
    assert_eq!(out[2].name, "c");
}

#[test]
fn edit_missing_id_changes_nothing() {
    let store = vec![sample(0, "a", "a", "rust", "x")];
    let out = edit_snippet(
        store,
        3,
        "B".to_string(),
        "bb".to_string(),
        "kotlin".to_string(),
        "Y".to_string(),
    );
    assert_eq!(out.len(), 1);
    assert_eq!(out[0].name, "a");
    assert_eq!(out[0].keyword, "a");
}

#[test]
fn store_paths_are_fixed() {
    let dir = get_snippets_dir("/home/u/.config");
    assert_eq!(dir, "/home/u/.config/lighttigerxiv-wl-snippets");
    let path = get_snippets_path(dir.as_str());
    assert_eq!(path, "/home/u/.config/lighttigerxiv-wl-snippets/snippets.json");
}
