//! Splitting the launcher's free-text input into a keyword and the
//! remaining words, and substituting positional placeholders in a snippet
//! body with those words.

use vstd::prelude::*;
use vstd::string::StrSliceExecFns;
use vstd::string::StringExecFns;
use crate::text::{dec_str, replace, replace_all, split_whitespace, split_ws, usize_to_string};

verus! {

/// A search input, split at the first space: the leading token as the
/// keyword and the remainder as the search text, or no keyword when the
/// input holds no space.
pub struct SearchQuery {
    pub keyword: Option<String>,
    pub search_text: String,
}

/// The position of the first space in the string, its length if there is
/// none.
pub open spec fn first_space_idx(s: Seq<char>) -> int
    decreases s.len(),
{
    if s.len() == 0 {
        0
    } else if s[0] == ' ' {
        0
    } else {
        1 + first_space_idx(s.skip(1))
    }
}

/// The keyword of a search input: the part before the first space, `None`
/// when the input holds no space.
pub open spec fn query_keyword(s: Seq<char>) -> Option<Seq<char>> {
    if first_space_idx(s) < s.len() {
        Some(s.take(first_space_idx(s)))
    } else {
        None
    }
}

/// The search text of a search input: the part after the first space, or
/// the whole input when it holds no space.
pub open spec fn query_text(s: Seq<char>) -> Seq<char> {
    if first_space_idx(s) < s.len() {
        s.skip(first_space_idx(s) + 1)
    } else {
        s
    }
}

/// A position with no space before it and a space (or the end) at it is
/// the first space position.
proof fn lemma_first_space_at(s: Seq<char>, i: int)
    requires
        0 <= i <= s.len(),
        forall|j: int| 0 <= j < i ==> s[j] != ' ',
        i == s.len() || s[i] == ' ',
    ensures
        first_space_idx(s) == i,
    decreases i,
{
    if i == 0 {
    } else {
        lemma_first_space_at(s.skip(1), i - 1);
    }
}

/// Split the launcher input into keyword and search text.
#[verifier::loop_isolation(false)]
pub fn get_search(text: String) -> (q: SearchQuery)
    ensures
        q.keyword.deep_view() == query_keyword(text@),
        q.search_text@ == query_text(text@),
{
    let n = text.as_str().unicode_len();
    let mut i: usize = 0;
    while i < n
        invariant
            0 <= i <= n,
            n == text@.len(),
            forall|j: int| 0 <= j < i ==> text@[j] != ' ',
        decreases n - i,
    {
        if text.as_str().get_char(i) == ' ' {
            proof {
                lemma_first_space_at(text@, i as int);
            }
            let keyword = text.as_str().substring_char(0, i).to_owned();
            let rest = text.as_str().substring_char(i + 1, n).to_owned();
            proof {
                assert(keyword@ =~= text@.take(i as int));
                assert(rest@ =~= text@.skip(i as int + 1));
            }
            return SearchQuery { keyword: Some(keyword), search_text: rest };
        }
        i += 1;
    }
    proof {
        lemma_first_space_at(text@, n as int);
    }
    SearchQuery { keyword: None, search_text: text }
}

/// The placeholder token that stands for the word at position `k`.
pub open spec fn placeholder(k: nat) -> Seq<char> {
    seq!['{', '%'] + dec_str(k) + seq!['}']
}

/// The body after the words at positions `k` and beyond have been
/// substituted for their placeholders, one replacement pass per word in
/// order.
pub open spec fn apply_words(body: Seq<char>, words: Seq<Seq<char>>, k: int) -> Seq<char>
    decreases words.len() - k,
{
    if k < 0 || k >= words.len() {
        body
    } else {
        apply_words(replace_all(body, placeholder(k as nat), words[k]), words, k + 1)
    }
}

/// The snippet body after every placeholder `{%N}` has been replaced by the
/// word at position `N` of the search text.
pub open spec fn substituted(body: Seq<char>, search_text: Seq<char>) -> Seq<char> {
    apply_words(body, split_ws(search_text), 0)
}

/// A blank string splits into no words.
proof fn lemma_split_ws_blank(s: Seq<char>)
    requires
        crate::text::blank(s),
    ensures
        split_ws(s).len() == 0,
    decreases s.len(),
{
    if s.len() > 0 {
        lemma_split_ws_blank(s.skip(1));
    }
}

/// A blank search text carries no words, so substitution leaves the
/// snippet body unchanged.
pub proof fn lemma_blank_text_keeps_body(body: Seq<char>, search_text: Seq<char>)
    requires
        crate::text::blank(search_text),
    ensures
        substituted(body, search_text) == body,
{
    lemma_split_ws_blank(search_text);
}

/// Replace each placeholder `{%N}` in the snippet body by the word at
/// position `N` of the search text.
#[verifier::loop_isolation(false)]
pub fn replace_placeholders(snippet: &str, search_text: &str) -> (r: String)
    ensures
        r@ == substituted(snippet@, search_text@),
{
    let words = split_whitespace(search_text);
    let ghost wv = words.deep_view();
    let mut cur = snippet.to_owned();
    let mut k: usize = 0;
    while k < words.len()
        invariant
            0 <= k <= words@.len(),
            wv == words.deep_view(),
            wv.len() == words@.len(),
            substituted(snippet@, search_text@) == apply_words(cur@, wv, k as int),
        decreases words@.len() - k,
    {
        let num = usize_to_string(k);
        let mut pat = "{%".to_owned();
        pat.append(num.as_str());
        pat.append("}");
        proof {
            reveal_strlit("{%");
            reveal_strlit("}");
            assert(pat@ =~= placeholder(k as nat));
            assert(pat@.len() > 0);
            assert(wv[k as int] == words@[k as int]@);
        }
        let replaced = replace(cur.as_str(), pat.as_str(), words[k].as_str());
        cur = replaced;
        k += 1;
    }
    cur
}

} // verus!
