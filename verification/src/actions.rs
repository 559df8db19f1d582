//! Deciding what a "run action" call does to the store: which records are
//! written back, or why nothing is.

use vstd::prelude::*;
use crate::snippets::{add_snippet, delete_snippet, edit_snippet, max_id, next_id, Snippet};
use crate::text::{all_dec_digits, blank, dec_val, is_blank, parse_usize, str_eq};

verus! {

/// The values of the four dialog fields that the add and edit dialogs
/// submit.
pub struct DialogValues {
    pub name: String,
    pub keyword: String,
    pub language: String,
    pub snippet: String,
}

/// What an action call decides: the new store contents to write, or the
/// reason nothing is written.
pub enum ActionEffect {
    /// Write this list back to the store.
    Write(Vec<Snippet>),
    /// The add dialog left the name, keyword or snippet blank: notify and
    /// write nothing.
    EmptyFields,
    /// The identifier argument is missing or is no number that fits:
    /// write nothing.
    InvalidId,
    /// The action name is not one of this extension's: write nothing.
    NoAction,
}

/// The string parses as a decimal `usize`.
pub open spec fn parses_as_id(s: Seq<char>) -> bool {
    s.len() > 0 && all_dec_digits(s) && dec_val(s) <= usize::MAX
}

/// Decide an action call. `values` carries the submitted dialog fields
/// (meaningful for `add_snippet` and `edit_snippet`), `dialog_args` the
/// arguments attached to the dialog, and `custom_args` the arguments of a
/// direct extension callback.
pub fn handle_actions(
    action: &str,
    values: DialogValues,
    dialog_args: &Vec<String>,
    custom_args: &Vec<String>,
    snippets: Vec<Snippet>,
) -> (r: ActionEffect)
    requires
        action@ == "add_snippet"@ ==> max_id(snippets@) < usize::MAX,
    ensures
        (if action@ == "add_snippet"@ {
            if blank(values.name@) || blank(values.keyword@) || blank(values.snippet@) {
                r is EmptyFields
            } else {
                r matches ActionEffect::Write(v) && v@ == snippets@.push(
                    (Snippet {
                        id: next_id(snippets@) as usize,
                        name: values.name,
                        keyword: values.keyword,
                        languague: values.language,
                        snippet: values.snippet,
                    }),
                )
            }
        } else if action@ == "edit_snippet"@ {
            if dialog_args@.len() == 0 || !parses_as_id(dialog_args@[0]@) {
                r is InvalidId
            } else {
                r matches ActionEffect::Write(v) && v@.len() == snippets@.len() && (forall|i: int|
                    0 <= i < snippets@.len() ==> v@[i] == (if snippets@[i].id as nat == dec_val(
                        dialog_args@[0]@,
                    ) {
                        Snippet {
                            id: snippets@[i].id,
                            name: values.name,
                            keyword: values.keyword,
                            languague: values.language,
                            snippet: values.snippet,
                        }
                    } else {
                        snippets@[i]
                    }))
            }
        } else if action@ == "delete_snippet"@ {
            if custom_args@.len() == 0 || !parses_as_id(custom_args@[0]@) {
                r is InvalidId
            } else {
                r matches ActionEffect::Write(v) && v@ == snippets@.filter(
                    |s: Snippet| s.id as nat != dec_val(custom_args@[0]@),
                )
            }
        } else {
            r is NoAction
        }),
{
    if str_eq(action, "add_snippet") {
        if is_blank(values.name.as_str()) || is_blank(values.keyword.as_str()) || is_blank(
            values.snippet.as_str(),
        ) {
            ActionEffect::EmptyFields
        } else {
            ActionEffect::Write(
                add_snippet(snippets, values.name, values.language, values.keyword, values.snippet),
            )
        }
    } else if str_eq(action, "edit_snippet") {
        if dialog_args.len() == 0 {
            return ActionEffect::InvalidId;
        }
        match parse_usize(dialog_args[0].as_str()) {
            Some(id) => ActionEffect::Write(
                edit_snippet(
                    snippets,
                    id,
                    values.name,
                    values.keyword,
                    values.language,
                    values.snippet,
                ),
            ),
            None => ActionEffect::InvalidId,
        }
    } else if str_eq(action, "delete_snippet") {
        if custom_args.len() == 0 {
            return ActionEffect::InvalidId;
        }
        match parse_usize(custom_args[0].as_str()) {
            Some(id) => {
                let ghost pred_id = |s: Snippet| s.id != id;
                let ghost pred_val = |s: Snippet| s.id as nat != dec_val(custom_args@[0]@);
                let out = delete_snippet(snippets, id);
                proof {
                    assert(pred_id =~= pred_val) by {
                        assert forall|s: Snippet| #[trigger] pred_id(s) == pred_val(s) by {
                            assert(id as nat == dec_val(custom_args@[0]@));
                        }
                    }
                }
                ActionEffect::Write(out)
            },
            None => ActionEffect::InvalidId,
        }
    } else {
        ActionEffect::NoAction
    }
}

} // verus!
