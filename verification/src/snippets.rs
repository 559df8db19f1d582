//! The snippet store: the record type, sequential identifier assignment,
//! and the pure list transformations behind adding, deleting and editing.
//!
//! Reading and writing the JSON file lives outside the library; every
//! function here maps the loaded list of records to the list that is to be
//! written back.

use vstd::prelude::*;
use vstd::string::StrSliceExecFns;
use vstd::string::StringExecFns;

verus! {

/// One stored snippet record.
#[verifier::ext_equal]
pub struct Snippet {
    pub id: usize,
    pub name: String,
    pub keyword: String,
    pub languague: String,
    pub snippet: String,
}

impl Snippet {
    pub fn new(
        id: usize,
        name: String,
        keyword: String,
        language: String,
        snippet: String,
    ) -> (r: Self)
        ensures
            r == (Snippet { id, name, keyword, languague: language, snippet }),
    {
        Snippet { id, name, keyword, languague: language, snippet }
    }
}

/// The largest identifier among the records, `0` if there are none.
pub open spec fn max_id(s: Seq<Snippet>) -> nat
    decreases s.len(),
{
    if s.len() == 0 {
        0
    } else {
        let m = max_id(s.drop_last());
        if s.last().id as nat > m {
            s.last().id as nat
        } else {
            m
        }
    }
}

/// The identifier a newly added record receives: `0` on an empty store,
/// one more than the largest existing identifier otherwise.
pub open spec fn next_id(s: Seq<Snippet>) -> nat {
    if s.len() == 0 {
        0
    } else {
        max_id(s) + 1
    }
}

/// Every identifier in the list is bounded by `max_id`.
proof fn lemma_max_id_bound(s: Seq<Snippet>, i: int)
    requires
        0 <= i < s.len(),
    ensures
        s[i].id as nat <= max_id(s),
    decreases s.len(),
{
    if i == s.len() - 1 {
    } else {
        lemma_max_id_bound(s.drop_last(), i);
    }
}

/// A newly assigned identifier is fresh: it is strictly larger than the
/// identifier of every stored record, so adding never collides with an
/// existing record.
pub proof fn lemma_next_id_fresh(s: Seq<Snippet>)
    ensures
        forall|i: int| 0 <= i < s.len() ==> (#[trigger] s[i].id) < next_id(s),
{
    assert forall|i: int| 0 <= i < s.len() implies (#[trigger] s[i].id) < next_id(s) by {
        lemma_max_id_bound(s, i);
    }
}

/// Append a new record, assigning it the next sequential identifier.
#[verifier::loop_isolation(false)]
pub fn add_snippet(
    snippets: Vec<Snippet>,
    name: String,
    language: String,
    keyword: String,
    snippet: String,
) -> (r: Vec<Snippet>)
    requires
        max_id(snippets@) < usize::MAX,
    ensures
        r@ == snippets@.push(
            (Snippet {
                id: next_id(snippets@) as usize,
                name,
                keyword,
                languague: language,
                snippet,
            }),
        ),
{
    let mut snippets = snippets;
    let ghost s0 = snippets@;
    let n = snippets.len();
    if n == 0 {
        snippets.push(Snippet::new(0, name, keyword, language, snippet));
    } else {
        let mut latest: usize = snippets[0].id;
        let mut i: usize = 1;
        proof {
            let t = s0.take(1);
            assert(t.len() == 1);
            assert(t.drop_last() =~= Seq::<Snippet>::empty());
            assert(max_id(t.drop_last()) == 0);
            assert(t.last() == s0[0]);
            assert(max_id(t) == s0[0].id as nat);
            lemma_max_id_bound(s0, 0);
        }
        while i < n
            invariant
                1 <= i <= n,
                n == s0.len(),
                snippets@ == s0,
                latest as nat == max_id(s0.take(i as int)),
                latest as nat <= max_id(s0),
            decreases n - i,
        {
            proof {
                assert(s0.take(i as int + 1).drop_last() =~= s0.take(i as int));
                assert(s0.take(i as int + 1).last() == s0[i as int]);
                lemma_max_id_bound(s0, i as int);
            }
            if snippets[i].id > latest {
                latest = snippets[i].id;
            }
            i += 1;
        }
        proof {
            assert(s0.take(n as int) =~= s0);
        }
        snippets.push(Snippet::new(latest + 1, name, keyword, language, snippet));
    }
    snippets
}

/// Remove every record whose identifier equals `id`, keeping the order of
/// the rest.
#[verifier::loop_isolation(false)]
pub fn delete_snippet(snippets: Vec<Snippet>, id: usize) -> (r: Vec<Snippet>)
    ensures
        r@ == snippets@.filter(|s: Snippet| s.id != id),
{
    let ghost pred = |s: Snippet| s.id != id;
    proof {
        reveal(Seq::filter);
        assert(Seq::<Snippet>::empty().filter(pred) =~= Seq::<Snippet>::empty());
        assert(snippets@.take(0).filter(pred) =~= Seq::<Snippet>::empty());
    }
    let mut out: Vec<Snippet> = Vec::new();
    let mut i: usize = 0;
    while i < snippets.len()
        invariant
            0 <= i <= snippets@.len(),
            out@ == snippets@.take(i as int).filter(pred),
        decreases snippets@.len() - i,
    {
        proof {
            reveal(Seq::filter);
            let t = snippets@.take(i as int + 1);
            assert(t.len() == i as int + 1);
            assert(t.drop_last() =~= snippets@.take(i as int));
            assert(t.last() == snippets@[i as int]);
            assert(t.filter(pred) == if pred(snippets@[i as int]) {
                snippets@.take(i as int).filter(pred).push(snippets@[i as int])
            } else {
                snippets@.take(i as int).filter(pred)
            });
        }
        if snippets[i].id != id {
            let s = &snippets[i];
            let kept = Snippet::new(
                s.id,
                s.name.clone(),
                s.keyword.clone(),
                s.languague.clone(),
                s.snippet.clone(),
            );
            assert(kept =~= snippets@[i as int]);
            out.push(kept);
        }
        i += 1;
    }
    proof {
        assert(snippets@.take(snippets@.len() as int) =~= snippets@);
    }
    out
}

/// Replace the fields of every record whose identifier equals `id` with the
/// given values, keeping its identifier and its position; every other
/// record is unchanged.
pub fn edit_snippet(
    snippets: Vec<Snippet>,
    id: usize,
    name: String,
    keyword: String,
    language: String,
    snippet: String,
) -> (r: Vec<Snippet>)
    ensures
        r@.len() == snippets@.len(),
        forall|i: int|
            0 <= i < snippets@.len() ==> r@[i] == (if snippets@[i].id == id {
                Snippet { id, name, keyword, languague: language, snippet }
            } else {
                snippets@[i]
            }),
{
    let mut out: Vec<Snippet> = Vec::new();
    let mut i: usize = 0;
    while i < snippets.len()
        invariant
            0 <= i <= snippets@.len(),
            out@.len() == i,
            forall|j: int|
                0 <= j < i ==> out@[j] == (if snippets@[j].id == id {
                    Snippet { id, name, keyword, languague: language, snippet }
                } else {
                    snippets@[j]
                }),
        decreases snippets@.len() - i,
    {
        let s = &snippets[i];
        if s.id == id {
            out.push(Snippet::new(
                id,
                name.clone(),
                keyword.clone(),
                language.clone(),
                snippet.clone(),
            ));
        } else {
            let kept = Snippet::new(
                s.id,
                s.name.clone(),
                s.keyword.clone(),
                s.languague.clone(),
                s.snippet.clone(),
            );
            assert(kept =~= snippets@[i as int]);
            out.push(kept);
        }
        i += 1;
    }
    out
}

/// The directory that holds the snippet store, below the platform's
/// configuration directory.
pub fn get_snippets_dir(base: &str) -> (r: String)
    ensures
        r@ == base@ + "/lighttigerxiv-wl-snippets"@,
{
    let mut p = base.to_owned();
    p.append("/lighttigerxiv-wl-snippets");
    p
}

/// The path of the JSON file inside the snippet directory.
pub fn get_snippets_path(dir: &str) -> (r: String)
    ensures
        r@ == dir@ + "/snippets.json"@,
{
    let mut p = dir.to_owned();
    p.append("/snippets.json");
    p
}

} // verus!
