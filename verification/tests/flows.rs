use wl_snippets::actions::{handle_actions, ActionEffect, DialogValues};
use wl_snippets::results::{
    handle_results, show_default_results, show_delete_results, show_edit_results,
    show_snippets_results, DialogField, LauncherResult, ResultAction,
};
use wl_snippets::search::get_search;
use wl_snippets::snippets::Snippet;

fn sample(id: usize, name: &str, keyword: &str, language: &str, body: &str) -> Snippet {
    Snippet::new(
        id,
        name.to_string(),
        keyword.to_string(),
        language.to_string(),
        body.to_string(),
    )
}

fn values(name: &str, keyword: &str, language: &str, snippet: &str) -> DialogValues {
    DialogValues {
        name: name.to_string(),
        keyword: keyword.to_string(),
        language: language.to_string(),
        snippet: snippet.to_string(),
    }
}

#[test]
fn default_results_offer_the_add_dialog() {
    let r = show_default_results("/ext");
    assert_eq!(r.len(), 1);
    match &r[0] {
        LauncherResult::Text { title, action, icon, tint_icon } => {
            assert_eq!(title, "Add Snippet");
            assert_eq!(icon, "/ext/src/icons/plus.svg");
            assert!(*tint_icon);
            match action {
                ResultAction::Dialog(d) => {
                    assert_eq!(d.extension_id, "lighttigerxiv/snippets");
                    assert_eq!(d.title, "Add Snippet");
                    assert_eq!(d.action_id, "add_snippet");
                    assert_eq!(d.primary_button_text, "Add");
                    assert_eq!(d.args.len(), 0);
                    assert_eq!(d.fields.len(), 4);
                    match &d.fields[2] {
                        DialogField::Select { id, default_value, options, .. } => {
                            assert_eq!(id, "language");
                            assert_eq!(default_value, "other");
                            assert_eq!(options.len(), 9);
                            assert_eq!(options[0].id, "other");
                            assert_eq!(options[7].id, "rust");
                        },
                        _ => panic!("third field should be the language select"),
                    }
                },
                _ => panic!("the default entry should open a dialog"),
            }
        },
        _ => panic!("the default entry should be a text result"),
    }
}

#[test]
fn snippet_results_substitute_and_copy() {
    let store = vec![sample(0, "Flow", "flow", "kotlin", "val {%0} = flow({%1})"),
        sample(1, "Loop", "loop", "rust", "loop {}")];
    let q = get_search("flow x y".to_string());
    let r = show_snippets_results("/ext", &store, &q);
    assert_eq!(r.len(), 1);
    match &r[0] {
        LauncherResult::TitleAndText { title, text, action, icon, tint_icon } => {
            assert_eq!(title, "Flow - flow");
            assert_eq!(text, "val x = flow(y)");
            assert_eq!(icon, "/ext/src/icons/kotlin.svg");
            assert!(*tint_icon);
            match action {
                ResultAction::CopyToClipboard(s) => assert_eq!(s, "val x = flow(y)"),
                _ => panic!("a snippet entry copies to the clipboard"),
            }
        },
        _ => panic!("a snippet entry has a title and a text"),
    }
}

#[test]
fn keywordless_search_leaves_body_untouched() {
    let store = vec![sample(0, "Flow", "flow", "kotlin", "val {%0} = 1")];
    let q = get_search("flw".to_string());
    let r = show_snippets_results("/ext", &store, &q);
    assert_eq!(r.len(), 1);
    match &r[0] {
        LauncherResult::TitleAndText { text, .. } => assert_eq!(text, "val {%0} = 1"),
        _ => panic!("a snippet entry has a title and a text"),
    }
}

#[test]
fn edit_results_carry_the_id_and_stored_values() {
    let store = vec![sample(3, "Flow", "flow", "kotlin", "body")];
    let q = get_search("e flow".to_string());
    let r = show_edit_results("/ext", &store, &q);
    assert_eq!(r.len(), 1);
    match &r[0] {
        LauncherResult::Text { title, action, icon, .. } => {
            assert_eq!(title, "Edit (Flow) (flow) (kotlin)");
            assert_eq!(icon, "/ext/src/icons/pencil.svg");
            match action {
                ResultAction::Dialog(d) => {
                    assert_eq!(d.title, "Edit Flow");
                    assert_eq!(d.action_id, "edit_snippet");
                    assert_eq!(d.primary_button_text, "Save");
                    assert_eq!(d.args, vec!["3".to_string()]);
                    match &d.fields[0] {
                        DialogField::Input { id, value, .. } => {
                            assert_eq!(id, "name");
                            assert_eq!(value, "Flow");
                        },
                        _ => panic!("first field should be the name input"),
                    }
                },
                _ => panic!("an edit entry opens a dialog"),
            }
        },
        _ => panic!("an edit entry is a text result"),
    }
}

#[test]
fn delete_results_call_back_with_the_id() {
    let store = vec![sample(5, "Flow", "flow", "kotlin", "body")];
    let q = get_search("d flow".to_string());
    let r = show_delete_results("/ext", &store, &q);
    assert_eq!(r.len(), 1);
    match &r[0] {
        LauncherResult::TitleAndText { title, text, action, icon, .. } => {
            assert_eq!(title, "Delete (Flow) (flow) (kotlin)");
            assert_eq!(text, "body");
            assert_eq!(icon, "/ext/src/icons/trash.svg");
            match action {
                ResultAction::Extension(e) => {
                    assert_eq!(e.extension_id, "lighttigerxiv/snippets");
                    assert_eq!(e.action_id, "delete_snippet");
                    assert_eq!(e.args, vec!["5".to_string()]);
                },
                _ => panic!("a delete entry calls back into the extension"),
            }
        },
        _ => panic!("a delete entry has a title and a text"),
    }
}

#[test]
fn handle_results_dispatches_on_the_keyword() {
    let store = vec![sample(0, "Flow", "flow", "kotlin", "body")];
    let r = handle_results("/ext", &store, String::new());
    assert_eq!(r.len(), 1);
    match &r[0] {
        LauncherResult::Text { title, .. } => assert_eq!(title, "Add Snippet"),
        _ => panic!("the empty search shows the add entry"),
    }
    let r = handle_results("/ext", &store, "edit flow".to_string());
    match &r[0] {
        LauncherResult::Text { title, .. } => assert_eq!(title, "Edit (Flow) (flow) (kotlin)"),
        _ => panic!("the edit keyword shows edit entries"),
    }
    let r = handle_results("/ext", &store, "delete flow".to_string());
    match &r[0] {
        LauncherResult::TitleAndText { title, .. } => {
            assert_eq!(title, "Delete (Flow) (flow) (kotlin)")
        },
        _ => panic!("the delete keyword shows delete entries"),
    }
    let r = handle_results("/ext", &store, "flow hello".to_string());
    match &r[0] {
        LauncherResult::TitleAndText { title, .. } => assert_eq!(title, "Flow - flow"),
        _ => panic!("other keywords search the snippets"),
    }
    // A space-led input yields an empty keyword, which fuzzy-matches all.
    let r = handle_results("/ext", &store, "   ".to_string());
    assert_eq!(r.len(), 1);
    // A blank input without a space yields no keyword and no results.
    let r = handle_results("/ext", &store, "\t".to_string());
    assert_eq!(r.len(), 0);
}

#[test]
fn add_action_appends_a_record() {
    let store = vec![sample(2, "a", "a", "rust", "x")];
    let effect = handle_actions(
        "add_snippet",
        values("Flow", "flow", "kotlin", "body"),
        &Vec::new(),
        &Vec::new(),
        store,
    );
    match effect {
        ActionEffect::Write(v) => {
            assert_eq!(v.len(), 2);
            assert_eq!(v[1].id, 3);
            assert_eq!(v[1].name, "Flow");
            assert_eq!(v[1].keyword, "flow");
            assert_eq!(v[1].languague, "kotlin");
            assert_eq!(v[1].snippet, "body");
        },
        _ => panic!("a complete add writes the store"),
    }
}

#[test]
fn add_action_rejects_blank_fields() {
    let effect = handle_actions(
        "add_snippet",
        values("  ", "flow", "kotlin", "body"),
        &Vec::new(),
        &Vec::new(),
        Vec::new(),
    );
    assert!(matches!(effect, ActionEffect::EmptyFields));
}

#[test]
fn edit_action_parses_the_id_argument() {
    let store = vec![sample(0, "a", "a", "rust", "x"), sample(1, "b", "b", "go", "y")];
    let effect = handle_actions(
        "edit_snippet",
        values("B", "bb", "kotlin", "Y"),
        &vec!["1".to_string()],
        &Vec::new(),
        store,
    );
    match effect {
        ActionEffect::Write(v) => {
            assert_eq!(v[0].name, "a");
            assert_eq!(v[1].name, "B");
            assert_eq!(v[1].id, 1);
        },
        _ => panic!("an edit with a valid id writes the store"),
    }
}

#[test]
fn edit_action_rejects_a_bad_id() {
    let effect = handle_actions(
        "edit_snippet",
        values("B", "bb", "kotlin", "Y"),
        &vec!["x1".to_string()],
        &Vec::new(),
        Vec::new(),
    );
    assert!(matches!(effect, ActionEffect::InvalidId));
    let effect = handle_actions(
        "edit_snippet",
        values("B", "bb", "kotlin", "Y"),
        &Vec::new(),
        &Vec::new(),
        Vec::new(),
    );
    assert!(matches!(effect, ActionEffect::InvalidId));
}

#[test]
fn delete_action_filters_the_store() {
    let store = vec![sample(0, "a", "a", "rust", "x"), sample(1, "b", "b", "go", "y")];
    let effect = handle_actions(
        "delete_snippet",
        values("", "", "", ""),
        &Vec::new(),
        &vec!["0".to_string()],
        store,
    );
    match effect {
        ActionEffect::Write(v) => {
            assert_eq!(v.len(), 1);
            assert_eq!(v[0].id, 1);
        },
        _ => panic!("a delete with a valid id writes the store"),
    }
}

#[test]
fn unknown_actions_do_nothing() {
    let effect = handle_actions(
        "rename_snippet",
        values("", "", "", ""),
        &Vec::new(),
        &Vec::new(),
        Vec::new(),
    );
    assert!(matches!(effect, ActionEffect::NoAction));
}
