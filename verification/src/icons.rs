//! Icon path resolution: every icon lives under `src/icons/` inside the
//! extension's own directory, and each programming language has an icon
//! file named after it.

use vstd::prelude::*;
use vstd::string::StrSliceExecFns;
use vstd::string::StringExecFns;
use crate::text::str_eq;

verus! {

/// The full path of an icon file inside the extension directory.
pub open spec fn icon_path(extension_dir: Seq<char>, name: Seq<char>) -> Seq<char> {
    extension_dir + "/src/icons/"@ + name
}

/// The icon file for a programming language: `default.svg` for `other`,
/// `<language>.svg` otherwise.
pub open spec fn icon_file(language: Seq<char>) -> Seq<char> {
    if language == "other"@ {
        "default.svg"@
    } else {
        language + ".svg"@
    }
}

/// Resolve an icon name to its path inside the extension directory.
pub fn get_icon(extension_dir: &str, name: &str) -> (r: String)
    ensures
        r@ == icon_path(extension_dir@, name@),
{
    let mut p = extension_dir.to_owned();
    p.append("/src/icons/");
    p.append(name);
    p
}

/// Resolve the icon of a programming language.
pub fn get_language_icon(extension_dir: &str, language: &str) -> (r: String)
    ensures
        r@ == icon_path(extension_dir@, icon_file(language@)),
{
    if str_eq(language, "other") {
        get_icon(extension_dir, "default.svg")
    } else {
        let mut f = language.to_owned();
        f.append(".svg");
        get_icon(extension_dir, f.as_str())
    }
}

} // verus!
