//! Building the result entries that the launcher shows: the default "add"
//! dialog, the fuzzy-matched snippet list with placeholder substitution,
//! and the edit and delete flows. The entries are plain data; the host
//! protocol serializes them outside the library.

use vstd::prelude::*;
use vstd::string::StrSliceExecFns;
use vstd::string::StringExecFns;
use crate::fuzzy::{fuzzy_matches, is_fuzzy_match};
use crate::icons::{get_icon, get_language_icon, icon_file, icon_path};
use crate::search::{
    get_search, query_keyword, query_text, replace_placeholders, substituted, SearchQuery,
};
use crate::snippets::Snippet;
use crate::text::{blank, dec_str, is_blank, str_eq, usize_to_string};

verus! {

/// One option of a select dialog field.
pub struct SelectOption {
    pub id: String,
    pub text: String,
}

/// The mathematical value of a select option.
#[verifier::ext_equal]
pub struct SelectOptionV {
    pub id: Seq<char>,
    pub text: Seq<char>,
}

impl View for SelectOption {
    type V = SelectOptionV;

    open spec fn view(&self) -> SelectOptionV {
        SelectOptionV { id: self.id@, text: self.text@ }
    }
}

/// One field of a dialog the launcher renders.
pub enum DialogField {
    Input { id: String, title: String, value: String, placeholder: String, description: String },
    Select {
        id: String,
        title: String,
        default_value: String,
        options: Vec<SelectOption>,
        description: String,
    },
    TextArea {
        id: String,
        title: String,
        value: String,
        placeholder: String,
        description: String,
    },
}

/// The mathematical value of a dialog field.
#[verifier::ext_equal]
pub enum DialogFieldV {
    Input {
        id: Seq<char>,
        title: Seq<char>,
        value: Seq<char>,
        placeholder: Seq<char>,
        description: Seq<char>,
    },
    Select {
        id: Seq<char>,
        title: Seq<char>,
        default_value: Seq<char>,
        options: Seq<SelectOptionV>,
        description: Seq<char>,
    },
    TextArea {
        id: Seq<char>,
        title: Seq<char>,
        value: Seq<char>,
        placeholder: Seq<char>,
        description: Seq<char>,
    },
}

/// The views of a list of select options.
pub open spec fn options_view(s: Seq<SelectOption>) -> Seq<SelectOptionV> {
    Seq::new(s.len(), |i: int| s[i]@)
}

/// The views of a list of strings.
pub open spec fn strings_view(s: Seq<String>) -> Seq<Seq<char>> {
    Seq::new(s.len(), |i: int| s[i]@)
}

impl View for DialogField {
    type V = DialogFieldV;

    open spec fn view(&self) -> DialogFieldV {
        match self {
            DialogField::Input { id, title, value, placeholder, description } => {
                DialogFieldV::Input {
                    id: id@,
                    title: title@,
                    value: value@,
                    placeholder: placeholder@,
                    description: description@,
                }
            },
            DialogField::Select { id, title, default_value, options, description } => {
                DialogFieldV::Select {
                    id: id@,
                    title: title@,
                    default_value: default_value@,
                    options: options_view(options@),
                    description: description@,
                }
            },
            DialogField::TextArea { id, title, value, placeholder, description } => {
                DialogFieldV::TextArea {
                    id: id@,
                    title: title@,
                    value: value@,
                    placeholder: placeholder@,
                    description: description@,
                }
            },
        }
    }
}

/// The views of a list of dialog fields.
pub open spec fn fields_view(s: Seq<DialogField>) -> Seq<DialogFieldV> {
    Seq::new(s.len(), |i: int| s[i]@)
}

/// An action that opens a dialog.
pub struct DialogAction {
    pub extension_id: String,
    pub title: String,
    pub action_id: String,
    pub fields: Vec<DialogField>,
    pub args: Vec<String>,
    pub primary_button_text: String,
}

/// The mathematical value of a dialog action.
#[verifier::ext_equal]
pub struct DialogActionV {
    pub extension_id: Seq<char>,
    pub title: Seq<char>,
    pub action_id: Seq<char>,
    pub fields: Seq<DialogFieldV>,
    pub args: Seq<Seq<char>>,
    pub primary_button_text: Seq<char>,
}

impl View for DialogAction {
    type V = DialogActionV;

    open spec fn view(&self) -> DialogActionV {
        DialogActionV {
            extension_id: self.extension_id@,
            title: self.title@,
            action_id: self.action_id@,
            fields: fields_view(self.fields@),
            args: strings_view(self.args@),
            primary_button_text: self.primary_button_text@,
        }
    }
}

/// An action that calls back into this extension.
pub struct ExtensionCall {
    pub extension_id: String,
    pub action_id: String,
    pub args: Vec<String>,
}

/// The mathematical value of an extension callback.
#[verifier::ext_equal]
pub struct ExtensionCallV {
    pub extension_id: Seq<char>,
    pub action_id: Seq<char>,
    pub args: Seq<Seq<char>>,
}

impl View for ExtensionCall {
    type V = ExtensionCallV;

    open spec fn view(&self) -> ExtensionCallV {
        ExtensionCallV {
            extension_id: self.extension_id@,
            action_id: self.action_id@,
            args: strings_view(self.args@),
        }
    }
}

/// The action attached to a result entry.
pub enum ResultAction {
    CopyToClipboard(String),
    Dialog(DialogAction),
    Extension(ExtensionCall),
}

/// The mathematical value of a result action.
#[verifier::ext_equal]
pub enum ResultActionV {
    CopyToClipboard(Seq<char>),
    Dialog(DialogActionV),
    Extension(ExtensionCallV),
}

impl View for ResultAction {
    type V = ResultActionV;

    open spec fn view(&self) -> ResultActionV {
        match self {
            ResultAction::CopyToClipboard(s) => ResultActionV::CopyToClipboard(s@),
            ResultAction::Dialog(d) => ResultActionV::Dialog(d@),
            ResultAction::Extension(e) => ResultActionV::Extension(e@),
        }
    }
}

/// One entry of the launcher's result list.
pub enum LauncherResult {
    Text { title: String, action: ResultAction, icon: String, tint_icon: bool },
    TitleAndText {
        title: String,
        text: String,
        action: ResultAction,
        icon: String,
        tint_icon: bool,
    },
}

/// The mathematical value of a result entry.
#[verifier::ext_equal]
pub enum LauncherResultV {
    Text { title: Seq<char>, action: ResultActionV, icon: Seq<char>, tint_icon: bool },
    TitleAndText {
        title: Seq<char>,
        text: Seq<char>,
        action: ResultActionV,
        icon: Seq<char>,
        tint_icon: bool,
    },
}

impl View for LauncherResult {
    type V = LauncherResultV;

    open spec fn view(&self) -> LauncherResultV {
        match self {
            LauncherResult::Text { title, action, icon, tint_icon } => {
                LauncherResultV::Text {
                    title: title@,
                    action: action@,
                    icon: icon@,
                    tint_icon: *tint_icon,
                }
            },
            LauncherResult::TitleAndText { title, text, action, icon, tint_icon } => {
                LauncherResultV::TitleAndText {
                    title: title@,
                    text: text@,
                    action: action@,
                    icon: icon@,
                    tint_icon: *tint_icon,
                }
            },
        }
    }
}

/// The views of a list of result entries.
pub open spec fn results_view(s: Seq<LauncherResult>) -> Seq<LauncherResultV> {
    Seq::new(s.len(), |i: int| s[i]@)
}

/// The identifier under which the launcher knows this extension.
pub open spec fn extension_id_view() -> Seq<char> {
    "lighttigerxiv/snippets"@
}

/// The identifier under which the launcher knows this extension.
pub fn extension_id() -> (r: &'static str)
    ensures
        r@ == extension_id_view(),
{
    "lighttigerxiv/snippets"
}

/// The fixed list of selectable programming languages.
pub open spec fn language_options() -> Seq<SelectOptionV> {
    seq![
        SelectOptionV { id: "other"@, text: "Other"@ },
        SelectOptionV { id: "c-sharp"@, text: "C#"@ },
        SelectOptionV { id: "go"@, text: "GO"@ },
        SelectOptionV { id: "java"@, text: "Java"@ },
        SelectOptionV { id: "js"@, text: "JavaScript"@ },
        SelectOptionV { id: "kotlin"@, text: "Kotlin"@ },
        SelectOptionV { id: "python"@, text: "Python"@ },
        SelectOptionV { id: "rust"@, text: "Rust"@ },
        SelectOptionV { id: "ts"@, text: "Typescript"@ },
    ]
}

/// Build the fixed list of selectable programming languages.
fn language_select_options() -> (r: Vec<SelectOption>)
    ensures
        options_view(r@) == language_options(),
{
    let mut v: Vec<SelectOption> = Vec::new();
    v.push(SelectOption { id: "other".to_owned(), text: "Other".to_owned() });
    v.push(SelectOption { id: "c-sharp".to_owned(), text: "C#".to_owned() });
    v.push(SelectOption { id: "go".to_owned(), text: "GO".to_owned() });
    v.push(SelectOption { id: "java".to_owned(), text: "Java".to_owned() });
    v.push(SelectOption { id: "js".to_owned(), text: "JavaScript".to_owned() });
    v.push(SelectOption { id: "kotlin".to_owned(), text: "Kotlin".to_owned() });
    v.push(SelectOption { id: "python".to_owned(), text: "Python".to_owned() });
    v.push(SelectOption { id: "rust".to_owned(), text: "Rust".to_owned() });
    v.push(SelectOption { id: "ts".to_owned(), text: "Typescript".to_owned() });
    proof {
        assert(options_view(v@) =~= language_options());
    }
    v
}

/// The four fields of the snippet dialog, with the given initial values:
/// empty for adding, the stored values for editing.
pub open spec fn dialog_fields(
    name_val: Seq<char>,
    keyword_val: Seq<char>,
    language_default: Seq<char>,
    snippet_val: Seq<char>,
) -> Seq<DialogFieldV> {
    seq![
        DialogFieldV::Input {
            id: "name"@,
            title: "Name"@,
            value: name_val,
            placeholder: "Name"@,
            description: "The snippet name. Example: 'Mutable State Flow'"@,
        },
        DialogFieldV::Input {
            id: "keyword"@,
            title: "Keyword"@,
            value: keyword_val,
            placeholder: "Keyword"@,
            description: "The snippet keyword. Used to search"@,
        },
        DialogFieldV::Select {
            id: "language"@,
            title: "Language"@,
            default_value: language_default,
            options: language_options(),
            description: "The snippet programming language"@,
        },
        DialogFieldV::TextArea {
            id: "snippet"@,
            title: "Snippet"@,
            value: snippet_val,
            placeholder: "Snippet"@,
            description: "The snippet. If needed use {%0}, {%1} and so on as paremeter"@,
        },
    ]
}

/// Build the snippet dialog fields with the given initial values.
fn build_dialog_fields(
    name_val: String,
    keyword_val: String,
    language_default: String,
    snippet_val: String,
) -> (r: Vec<DialogField>)
    ensures
        fields_view(r@) == dialog_fields(name_val@, keyword_val@, language_default@, snippet_val@),
{
    let mut v: Vec<DialogField> = Vec::new();
    v.push(DialogField::Input {
        id: "name".to_owned(),
        title: "Name".to_owned(),
        value: name_val,
        placeholder: "Name".to_owned(),
        description: "The snippet name. Example: 'Mutable State Flow'".to_owned(),
    });
    v.push(DialogField::Input {
        id: "keyword".to_owned(),
        title: "Keyword".to_owned(),
        value: keyword_val,
        placeholder: "Keyword".to_owned(),
        description: "The snippet keyword. Used to search".to_owned(),
    });
    v.push(DialogField::Select {
        id: "language".to_owned(),
        title: "Language".to_owned(),
        default_value: language_default,
        options: language_select_options(),
        description: "The snippet programming language".to_owned(),
    });
    v.push(DialogField::TextArea {
        id: "snippet".to_owned(),
        title: "Snippet".to_owned(),
        value: snippet_val,
        placeholder: "Snippet".to_owned(),
        description: "The snippet. If needed use {%0}, {%1} and so on as paremeter".to_owned(),
    });
    proof {
        assert(fields_view(v@) =~= dialog_fields(
            name_val@,
            keyword_val@,
            language_default@,
            snippet_val@,
        ));
    }
    v
}

/// The single default entry: a dialog that adds a snippet.
pub open spec fn default_results(dir: Seq<char>) -> Seq<LauncherResultV> {
    seq![
        LauncherResultV::Text {
            title: "Add Snippet"@,
            action: ResultActionV::Dialog(
                DialogActionV {
                    extension_id: extension_id_view(),
                    title: "Add Snippet"@,
                    action_id: "add_snippet"@,
                    fields: dialog_fields(
                        Seq::<char>::empty(),
                        Seq::<char>::empty(),
                        "other"@,
                        Seq::<char>::empty(),
                    ),
                    args: Seq::<Seq<char>>::empty(),
                    primary_button_text: "Add"@,
                },
            ),
            icon: icon_path(dir, "plus.svg"@),
            tint_icon: true,
        },
    ]
}

/// Build the default result list: the entry that opens the add dialog.
pub fn show_default_results(extension_dir: &str) -> (r: Vec<LauncherResult>)
    ensures
        results_view(r@) == default_results(extension_dir@),
{
    let fields = build_dialog_fields(
        String::new(),
        String::new(),
        "other".to_owned(),
        String::new(),
    );
    let action = ResultAction::Dialog(DialogAction {
        extension_id: extension_id().to_owned(),
        title: "Add Snippet".to_owned(),
        action_id: "add_snippet".to_owned(),
        fields,
        args: Vec::new(),
        primary_button_text: "Add".to_owned(),
    });
    let mut r: Vec<LauncherResult> = Vec::new();
    r.push(LauncherResult::Text {
        title: "Add Snippet".to_owned(),
        action,
        icon: get_icon(extension_dir, "plus.svg"),
        tint_icon: true,
    });
    proof {
        assert(strings_view(Seq::<String>::empty()) =~= Seq::<Seq<char>>::empty());
        assert(results_view(r@) =~= default_results(extension_dir@));
    }
    r
}

/// The entry for one matched snippet: its name and keyword as the title,
/// the (possibly substituted) body as the text, and a copy-to-clipboard
/// action carrying that same body.
pub open spec fn snippet_copy_entry(dir: Seq<char>, s: Snippet, body: Seq<char>) -> LauncherResultV {
    LauncherResultV::TitleAndText {
        title: s.name@ + " - "@ + s.keyword@,
        text: body,
        action: ResultActionV::CopyToClipboard(body),
        icon: icon_path(dir, icon_file(s.languague@)),
        tint_icon: true,
    }
}

/// The entries of the snippet search: with a keyword present, every snippet
/// whose keyword the keyword fuzzy-matches, its body substituted with the
/// words of the search text; with none, every snippet whose keyword the
/// whole search text fuzzy-matches, its body untouched.
pub open spec fn snippets_results(
    dir: Seq<char>,
    sn: Seq<Snippet>,
    kw: Option<Seq<char>>,
    text: Seq<char>,
) -> Seq<LauncherResultV>
    decreases sn.len(),
{
    if sn.len() == 0 {
        seq![]
    } else {
        let prefix = snippets_results(dir, sn.drop_last(), kw, text);
        let s = sn.last();
        match kw {
            Option::Some(k) => if fuzzy_matches(s.keyword@, k) {
                prefix.push(snippet_copy_entry(dir, s, substituted(s.snippet@, text)))
            } else {
                prefix
            },
            Option::None => if fuzzy_matches(s.keyword@, text) {
                prefix.push(snippet_copy_entry(dir, s, s.snippet@))
            } else {
                prefix
            },
        }
    }
}

/// Build the snippet search results for a query.
#[verifier::loop_isolation(false)]
#[verifier::rlimit(50)]
pub fn show_snippets_results(
    extension_dir: &str,
    snippets: &Vec<Snippet>,
    search: &SearchQuery,
) -> (r: Vec<LauncherResult>)
    ensures
        results_view(r@) == snippets_results(
            extension_dir@,
            snippets@,
            search.keyword.deep_view(),
            search.search_text@,
        ),
{
    let ghost kw = search.keyword.deep_view();
    let ghost text = search.search_text@;
    let mut out: Vec<LauncherResult> = Vec::new();
    let mut i: usize = 0;
    proof {
        assert(results_view(out@) =~= snippets_results(
            extension_dir@,
            snippets@.take(0),
            kw,
            text,
        ));
    }
    while i < snippets.len()
        invariant
            0 <= i <= snippets@.len(),
            results_view(out@) == snippets_results(extension_dir@, snippets@.take(i as int), kw, text),
        decreases snippets@.len() - i,
    {
        proof {
            assert(snippets@.take(i as int + 1).drop_last() =~= snippets@.take(i as int));
            assert(snippets@.take(i as int + 1).last() == snippets@[i as int]);
        }
        let s = &snippets[i];
        let matched = match &search.keyword {
            Some(k) => is_fuzzy_match(s.keyword.as_str(), k.as_str()),
            None => is_fuzzy_match(s.keyword.as_str(), search.search_text.as_str()),
        };
        if matched {
            let body = match &search.keyword {
                Some(_) => replace_placeholders(s.snippet.as_str(), search.search_text.as_str()),
                None => s.snippet.clone(),
            };
            let mut title = s.name.clone();
            title.append(" - ");
            title.append(s.keyword.as_str());
            let entry = LauncherResult::TitleAndText {
                title,
                text: body.clone(),
                action: ResultAction::CopyToClipboard(body),
                icon: get_language_icon(extension_dir, s.languague.as_str()),
                tint_icon: true,
            };
            proof {
                assert(entry@ == snippet_copy_entry(
                    extension_dir@,
                    snippets@[i as int],
                    entry@->TitleAndText_text,
                ));
            }
            out.push(entry);
        }
        proof {
            assert(results_view(out@) =~= snippets_results(
                extension_dir@,
                snippets@.take(i as int + 1),
                kw,
                text,
            ));
        }
        i += 1;
    }
    proof {
        assert(snippets@.take(snippets@.len() as int) =~= snippets@);
    }
    out
}

/// The entry offering to edit one snippet: a dialog pre-filled with its
/// stored fields, carrying the snippet's identifier as its argument.
pub open spec fn edit_entry(dir: Seq<char>, s: Snippet) -> LauncherResultV {
    LauncherResultV::Text {
        title: "Edit ("@ + s.name@ + ") ("@ + s.keyword@ + ") ("@ + s.languague@ + ")"@,
        action: ResultActionV::Dialog(
            DialogActionV {
                extension_id: extension_id_view(),
                title: "Edit "@ + s.name@,
                action_id: "edit_snippet"@,
                fields: dialog_fields(s.name@, s.keyword@, s.languague@, s.snippet@),
                args: seq![dec_str(s.id as nat)],
                primary_button_text: "Save"@,
            },
        ),
        icon: icon_path(dir, "pencil.svg"@),
        tint_icon: true,
    }
}

/// The edit flow's entries: one per snippet whose keyword followed by its
/// name the search text fuzzy-matches.
pub open spec fn edit_results(dir: Seq<char>, sn: Seq<Snippet>, text: Seq<char>) -> Seq<
    LauncherResultV,
>
    decreases sn.len(),
{
    if sn.len() == 0 {
        seq![]
    } else {
        let prefix = edit_results(dir, sn.drop_last(), text);
        let s = sn.last();
        if fuzzy_matches(s.keyword@ + s.name@, text) {
            prefix.push(edit_entry(dir, s))
        } else {
            prefix
        }
    }
}

/// Build the edit-flow results for a query.
#[verifier::loop_isolation(false)]
#[verifier::rlimit(50)]
pub fn show_edit_results(
    extension_dir: &str,
    snippets: &Vec<Snippet>,
    search: &SearchQuery,
) -> (r: Vec<LauncherResult>)
    ensures
        results_view(r@) == edit_results(extension_dir@, snippets@, search.search_text@),
{
    let ghost text = search.search_text@;
    let mut out: Vec<LauncherResult> = Vec::new();
    let mut i: usize = 0;
    proof {
        assert(results_view(out@) =~= edit_results(extension_dir@, snippets@.take(0), text));
    }
    while i < snippets.len()
        invariant
            0 <= i <= snippets@.len(),
            results_view(out@) == edit_results(extension_dir@, snippets@.take(i as int), text),
        decreases snippets@.len() - i,
    {
        proof {
            assert(snippets@.take(i as int + 1).drop_last() =~= snippets@.take(i as int));
            assert(snippets@.take(i as int + 1).last() == snippets@[i as int]);
        }
        let s = &snippets[i];
        let mut search_string = s.keyword.clone();
        search_string.append(s.name.as_str());
        if is_fuzzy_match(search_string.as_str(), search.search_text.as_str()) {
            let fields = build_dialog_fields(
                s.name.clone(),
                s.keyword.clone(),
                s.languague.clone(),
                s.snippet.clone(),
            );
            let mut dialog_title = "Edit ".to_owned();
            dialog_title.append(s.name.as_str());
            let mut args: Vec<String> = Vec::new();
            args.push(usize_to_string(s.id));
            proof {
                assert(strings_view(args@) =~= seq![dec_str(s.id as nat)]);
            }
            let mut title = "Edit (".to_owned();
            title.append(s.name.as_str());
            title.append(") (");
            title.append(s.keyword.as_str());
            title.append(") (");
            title.append(s.languague.as_str());
            title.append(")");
            let entry = LauncherResult::Text {
                title,
                action: ResultAction::Dialog(DialogAction {
                    extension_id: extension_id().to_owned(),
                    title: dialog_title,
                    action_id: "edit_snippet".to_owned(),
                    fields,
                    args,
                    primary_button_text: "Save".to_owned(),
                }),
                icon: get_icon(extension_dir, "pencil.svg"),
                tint_icon: true,
            };
            proof {
                assert(entry@ =~= edit_entry(extension_dir@, snippets@[i as int]));
            }
            out.push(entry);
        }
        proof {
            assert(results_view(out@) =~= edit_results(
                extension_dir@,
                snippets@.take(i as int + 1),
                text,
            ));
        }
        i += 1;
    }
    proof {
        assert(snippets@.take(snippets@.len() as int) =~= snippets@);
    }
    out
}

/// The entry offering to delete one snippet: its body as the text, and a
/// callback into this extension carrying the snippet's identifier.
pub open spec fn delete_entry(dir: Seq<char>, s: Snippet) -> LauncherResultV {
    LauncherResultV::TitleAndText {
        title: "Delete ("@ + s.name@ + ") ("@ + s.keyword@ + ") ("@ + s.languague@ + ")"@,
        text: s.snippet@,
        action: ResultActionV::Extension(
            ExtensionCallV {
                extension_id: extension_id_view(),
                action_id: "delete_snippet"@,
                args: seq![dec_str(s.id as nat)],
            },
        ),
        icon: icon_path(dir, "trash.svg"@),
        tint_icon: true,
    }
}

/// The delete flow's entries: one per snippet whose keyword the search text
/// fuzzy-matches.
pub open spec fn delete_results(dir: Seq<char>, sn: Seq<Snippet>, text: Seq<char>) -> Seq<
    LauncherResultV,
>
    decreases sn.len(),
{
    if sn.len() == 0 {
        seq![]
    } else {
        let prefix = delete_results(dir, sn.drop_last(), text);
        let s = sn.last();
        if fuzzy_matches(s.keyword@, text) {
            prefix.push(delete_entry(dir, s))
        } else {
            prefix
        }
    }
}

/// Build the delete-flow results for a query.
#[verifier::loop_isolation(false)]
#[verifier::rlimit(50)]
pub fn show_delete_results(
    extension_dir: &str,
    snippets: &Vec<Snippet>,
    search: &SearchQuery,
) -> (r: Vec<LauncherResult>)
    ensures
        results_view(r@) == delete_results(extension_dir@, snippets@, search.search_text@),
{
    let ghost text = search.search_text@;
    let mut out: Vec<LauncherResult> = Vec::new();
    let mut i: usize = 0;
    proof {
        assert(results_view(out@) =~= delete_results(extension_dir@, snippets@.take(0), text));
    }
    while i < snippets.len()
        invariant
            0 <= i <= snippets@.len(),
            results_view(out@) == delete_results(extension_dir@, snippets@.take(i as int), text),
        decreases snippets@.len() - i,
    {
        proof {
            assert(snippets@.take(i as int + 1).drop_last() =~= snippets@.take(i as int));
            assert(snippets@.take(i as int + 1).last() == snippets@[i as int]);
        }
        let s = &snippets[i];
        if is_fuzzy_match(s.keyword.as_str(), search.search_text.as_str()) {
            let mut args: Vec<String> = Vec::new();
            args.push(usize_to_string(s.id));
            proof {
                assert(strings_view(args@) =~= seq![dec_str(s.id as nat)]);
            }
            let mut title = "Delete (".to_owned();
            title.append(s.name.as_str());
            title.append(") (");
            title.append(s.keyword.as_str());
            title.append(") (");
            title.append(s.languague.as_str());
            title.append(")");
            let entry = LauncherResult::TitleAndText {
                title,
                text: s.snippet.clone(),
                action: ResultAction::Extension(ExtensionCall {
                    extension_id: extension_id().to_owned(),
                    action_id: "delete_snippet".to_owned(),
                    args,
                }),
                icon: get_icon(extension_dir, "trash.svg"),
                tint_icon: true,
            };
            proof {
                assert(entry@ =~= delete_entry(extension_dir@, snippets@[i as int]));
            }
            out.push(entry);
        }
        proof {
            assert(results_view(out@) =~= delete_results(
                extension_dir@,
                snippets@.take(i as int + 1),
                text,
            ));
        }
        i += 1;
    }
    proof {
        assert(snippets@.take(snippets@.len() as int) =~= snippets@);
    }
    out
}

/// The results the extension answers a search with. The input splits into a
/// keyword and a search text; an empty input shows the add dialog, the
/// keywords `e`/`edit` and `d`/`delete` open their flows, any other keyword
/// searches the snippets, and a keyword-less non-blank input searches them
/// with the whole input; a blank, non-empty input yields nothing.
pub open spec fn results_for(dir: Seq<char>, sn: Seq<Snippet>, input: Seq<char>) -> Seq<
    LauncherResultV,
> {
    let text = query_text(input);
    match query_keyword(input) {
        Option::Some(k) => if k == "e"@ || k == "edit"@ {
            edit_results(dir, sn, text)
        } else if k == "d"@ || k == "delete"@ {
            delete_results(dir, sn, text)
        } else {
            snippets_results(dir, sn, Option::Some(k), text)
        },
        Option::None => if text.len() == 0 {
            default_results(dir)
        } else if !blank(text) {
            snippets_results(dir, sn, Option::None, text)
        } else {
            seq![]
        },
    }
}

/// Answer a search call: split the input and build the matching result
/// list.
pub fn handle_results(
    extension_dir: &str,
    snippets: &Vec<Snippet>,
    search_text: String,
) -> (r: Vec<LauncherResult>)
    ensures
        results_view(r@) == results_for(extension_dir@, snippets@, search_text@),
{
    let ghost input = search_text@;
    let search = get_search(search_text);
    match &search.keyword {
        Some(k) => {
            if str_eq(k.as_str(), "e") || str_eq(k.as_str(), "edit") {
                show_edit_results(extension_dir, snippets, &search)
            } else if str_eq(k.as_str(), "d") || str_eq(k.as_str(), "delete") {
                show_delete_results(extension_dir, snippets, &search)
            } else {
                show_snippets_results(extension_dir, snippets, &search)
            }
        },
        None => {
            if search.search_text.as_str().is_empty() {
                show_default_results(extension_dir)
            } else if !is_blank(search.search_text.as_str()) {
                show_snippets_results(extension_dir, snippets, &search)
            } else {
                let r: Vec<LauncherResult> = Vec::new();
                proof {
                    assert(results_view(r@) =~= Seq::<LauncherResultV>::empty());
                }
                r
            }
        },
    }
}

} // verus!
