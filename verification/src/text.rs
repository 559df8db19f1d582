//! Verified text utilities: whitespace handling, string comparison,
//! literal substring replacement, whitespace splitting, and decimal
//! conversion of identifiers.

use vstd::prelude::*;
use vstd::string::StrSliceExecFns;
use vstd::string::StringExecFns;

verus! {

/// The characters of the Unicode `White_Space` property, the set that
/// `char::is_whitespace` documents.
pub open spec fn is_space_char(c: char) -> bool {
    c == ' ' || c == '\t' || c == '\n' || c == '\r' || c == '\u{b}' || c == '\u{c}' || c
        == '\u{85}' || c == '\u{a0}' || c == '\u{1680}' || (0x2000 <= c as u32 && c as u32
        <= 0x200a) || c == '\u{2028}' || c == '\u{2029}' || c == '\u{202f}' || c == '\u{205f}' || c
        == '\u{3000}'
}

/// Decide whether a character is whitespace.
pub fn is_space(c: char) -> (r: bool)
    ensures
        r == is_space_char(c),
{
    let u = c as u32;
    u == 0x20 || u == 0x9 || u == 0xa || u == 0xd || u == 0xb || u == 0xc || u == 0x85 || u == 0xa0
        || u == 0x1680 || (0x2000 <= u && u <= 0x200a) || u == 0x2028 || u == 0x2029 || u == 0x202f
        || u == 0x205f || u == 0x3000
}

/// Compare two string slices character by character.
#[verifier::loop_isolation(false)]
pub fn str_eq(a: &str, b: &str) -> (r: bool)
    ensures
        r == (a@ == b@),
{
    let an = a.unicode_len();
    let bn = b.unicode_len();
    if an != bn {
        return false;
    }
    let mut i: usize = 0;
    while i < an
        invariant
            0 <= i <= an,
            an == a@.len(),
            an == b@.len(),
            forall|j: int| 0 <= j < i ==> a@[j] == b@[j],
        decreases an - i,
    {
        if a.get_char(i) != b.get_char(i) {
            return false;
        }
        i += 1;
    }
    proof {
        assert(a@ =~= b@);
    }
    true
}

/// True when every character of the string is whitespace; in particular on
/// the empty string. This is what `trim` followed by `is_empty` tests.
pub open spec fn blank(s: Seq<char>) -> bool {
    forall|i: int| 0 <= i < s.len() ==> is_space_char(s[i])
}

/// Decide whether a string is empty or all whitespace.
#[verifier::loop_isolation(false)]
pub fn is_blank(s: &str) -> (r: bool)
    ensures
        r == blank(s@),
{
    let n = s.unicode_len();
    let mut i: usize = 0;
    while i < n
        invariant
            0 <= i <= n,
            n == s@.len(),
            forall|j: int| 0 <= j < i ==> is_space_char(s@[j]),
        decreases n - i,
    {
        if !is_space(s.get_char(i)) {
            return false;
        }
        i += 1;
    }
    true
}

/// Leftmost, non-overlapping replacement of every occurrence of `pat` by
/// `rep`, as `str::replace` performs it for a non-empty pattern.
pub open spec fn replace_all(s: Seq<char>, pat: Seq<char>, rep: Seq<char>) -> Seq<char>
    decreases s.len(),
{
    if pat.len() == 0 || s.len() < pat.len() {
        s
    } else if s.take(pat.len() as int) == pat {
        rep + replace_all(s.skip(pat.len() as int), pat, rep)
    } else {
        seq![s[0]] + replace_all(s.skip(1), pat, rep)
    }
}

/// Decide whether `pat` occurs in `s` starting at position `i`.
#[verifier::loop_isolation(false)]
fn matches_at(s: &str, i: usize, pat: &str) -> (r: bool)
    requires
        i + pat@.len() <= s@.len(),
    ensures
        r == (s@.subrange(i as int, i as int + pat@.len() as int) == pat@),
{
    let n = s.unicode_len();
    let m = pat.unicode_len();
    let mut k: usize = 0;
    while k < m
        invariant
            0 <= k <= m,
            m == pat@.len(),
            n == s@.len(),
            i + m <= n,
            forall|j: int| 0 <= j < k ==> s@[i + j] == pat@[j],
        decreases m - k,
    {
        if s.get_char(i + k) != pat.get_char(k) {
            proof {
                assert(s@.subrange(i as int, i as int + pat@.len() as int)[k as int] == s@[i as int
                    + k as int]);
            }
            return false;
        }
        k += 1;
    }
    proof {
        assert(s@.subrange(i as int, i as int + pat@.len() as int) =~= pat@);
    }
    true
}

/// Replace every occurrence of `pat` in `s` by `rep`, scanning from the
/// left and skipping over each replacement.
#[verifier::loop_isolation(false)]
#[verifier::rlimit(50)]
pub fn replace(s: &str, pat: &str, rep: &str) -> (r: String)
    requires
        pat@.len() > 0,
    ensures
        r@ == replace_all(s@, pat@, rep@),
{
    let n = s.unicode_len();
    let m = pat.unicode_len();
    let mut out = String::new();
    let mut i: usize = 0;
    proof {
        assert(s@.skip(0) =~= s@);
        assert(Seq::<char>::empty() + replace_all(s@, pat@, rep@) =~= replace_all(
            s@,
            pat@,
            rep@,
        ));
    }
    while i < n
        invariant
            0 <= i <= n,
            n == s@.len(),
            m == pat@.len(),
            replace_all(s@, pat@, rep@) == out@ + replace_all(s@.skip(i as int), pat@, rep@),
        decreases n - i,
    {
        let ghost t = s@.skip(i as int);
        if m <= n - i && matches_at(s, i, pat) {
            out.append(rep);
            proof {
                assert(t.take(m as int) =~= s@.subrange(i as int, i as int + m as int));
                assert(t.skip(m as int) =~= s@.skip(i as int + m as int));
                assert(replace_all(t, pat@, rep@) == rep@ + replace_all(
                    s@.skip(i as int + m as int),
                    pat@,
                    rep@,
                ));
                assert((out@ + rep@) + replace_all(s@.skip(i as int + m as int), pat@, rep@) =~= out@
                    + (rep@ + replace_all(s@.skip(i as int + m as int), pat@, rep@)));
            }
            i += m;
        } else {
            let piece = s.substring_char(i, i + 1);
            out.append(piece);
            proof {
                assert(piece@ =~= seq![t[0]]);
                assert(t.skip(1) =~= s@.skip(i as int + 1));
                if t.len() < m {
                    assert(replace_all(t, pat@, rep@) == t);
                    assert(replace_all(t.skip(1), pat@, rep@) == t.skip(1));
                    assert(t =~= seq![t[0]] + t.skip(1));
                } else {
                    assert(t.take(m as int) =~= s@.subrange(i as int, i as int + m as int));
                    assert(t.take(m as int) != pat@);
                    assert(replace_all(t, pat@, rep@) == seq![t[0]] + replace_all(
                        t.skip(1),
                        pat@,
                        rep@,
                    ));
                }
                assert((out@ + seq![t[0]]) + replace_all(s@.skip(i as int + 1), pat@, rep@) =~= out@
                    + (seq![t[0]] + replace_all(s@.skip(i as int + 1), pat@, rep@)));
            }
            i += 1;
        }
    }
    proof {
        assert(s@.skip(n as int) =~= Seq::<char>::empty());
        assert(replace_all(Seq::<char>::empty(), pat@, rep@) == Seq::<char>::empty());
        assert(out@ + Seq::<char>::empty() =~= out@);
    }
    out
}

/// The words of a string: the maximal runs of non-whitespace characters,
/// in order, as `str::split_whitespace` yields them.
pub open spec fn split_ws(s: Seq<char>) -> Seq<Seq<char>>
    decreases s.len(),
{
    if s.len() == 0 {
        seq![]
    } else if is_space_char(s[0]) {
        split_ws(s.skip(1))
    } else {
        let rest = split_ws(s.skip(1));
        if s.len() > 1 && !is_space_char(s[1]) {
            seq![seq![s[0]] + rest[0]] + rest.skip(1)
        } else {
            seq![seq![s[0]]] + rest
        }
    }
}

/// A string that starts with a non-whitespace character splits into at
/// least one word, and its first word starts with that character.
proof fn lemma_split_ws_head(s: Seq<char>)
    requires
        s.len() > 0,
        !is_space_char(s[0]),
    ensures
        split_ws(s).len() > 0,
        split_ws(s)[0].len() > 0,
        split_ws(s)[0][0] == s[0],
    decreases s.len(),
{
    if s.len() > 1 && !is_space_char(s[1]) {
        lemma_split_ws_head(s.skip(1));
    }
}

/// Splitting a string whose first `k` characters form a whole word yields
/// that word followed by the split of the remainder.
proof fn lemma_split_ws_word(s: Seq<char>, k: int)
    requires
        0 < k <= s.len(),
        forall|j: int| 0 <= j < k ==> !is_space_char(s[j]),
        k == s.len() || is_space_char(s[k]),
    ensures
        split_ws(s) == seq![s.take(k)] + split_ws(s.skip(k)),
    decreases k,
{
    if k == 1 {
        assert(s.take(1) =~= seq![s[0]]);
        if s.len() > 1 && !is_space_char(s[1]) {
            assert(false);
        }
    } else {
        lemma_split_ws_word(s.skip(1), k - 1);
        lemma_split_ws_head(s.skip(1));
        let rest = split_ws(s.skip(1));
        assert(rest == seq![s.skip(1).take(k - 1)] + split_ws(s.skip(1).skip(k - 1)));
        assert(rest[0] == s.skip(1).take(k - 1));
        assert(seq![s[0]] + s.skip(1).take(k - 1) =~= s.take(k));
        assert(rest.skip(1) =~= split_ws(s.skip(1).skip(k - 1)));
        assert(s.skip(1).skip(k - 1) =~= s.skip(k));
        assert(split_ws(s) =~= seq![s.take(k)] + split_ws(s.skip(k)));
    }
}

/// The index of the first whitespace character at or after `start`, or the
/// length of the string if there is none.
#[verifier::loop_isolation(false)]
fn word_end(s: &str, start: usize) -> (j: usize)
    requires
        start <= s@.len(),
    ensures
        start <= j <= s@.len(),
        forall|k: int| start <= k < j ==> !is_space_char(s@[k]),
        j < s@.len() ==> is_space_char(s@[j as int]),
{
    let n = s.unicode_len();
    let mut j = start;
    while j < n
        invariant
            start <= j <= n,
            n == s@.len(),
            forall|k: int| start <= k < j ==> !is_space_char(s@[k]),
        decreases n - j,
    {
        if is_space(s.get_char(j)) {
            return j;
        }
        j += 1;
    }
    j
}

/// Split a string into its whitespace-separated words.
#[verifier::loop_isolation(false)]
pub fn split_whitespace(s: &str) -> (r: Vec<String>)
    ensures
        r.deep_view() == split_ws(s@),
{
    let n = s.unicode_len();
    let mut out: Vec<String> = Vec::new();
    let mut i: usize = 0;
    proof {
        assert(s@.skip(0) =~= s@);
        assert(out.deep_view() =~= Seq::<Seq<char>>::empty());
        assert(Seq::<Seq<char>>::empty() + split_ws(s@) =~= split_ws(s@));
    }
    while i < n
        invariant
            0 <= i <= n,
            n == s@.len(),
            split_ws(s@) == out.deep_view() + split_ws(s@.skip(i as int)),
        decreases n - i,
    {
        let ghost t = s@.skip(i as int);
        if is_space(s.get_char(i)) {
            proof {
                assert(t.skip(1) =~= s@.skip(i as int + 1));
                assert(split_ws(t) == split_ws(s@.skip(i as int + 1)));
            }
            i += 1;
        } else {
            let j = word_end(s, i);
            assert(j > i);
            let word = s.substring_char(i, j).to_owned();
            let ghost old_out = out.deep_view();
            out.push(word);
            proof {
                assert(out.deep_view() =~= old_out + seq![word@]);
                lemma_split_ws_word(t, j - i);
                assert(t.take(j - i) =~= s@.subrange(i as int, j as int));
                assert(word@ == t.take(j - i));
                assert(t.skip(j - i) =~= s@.skip(j as int));
                assert((old_out + seq![word@]) + split_ws(s@.skip(j as int)) =~= old_out + (
                seq![word@] + split_ws(s@.skip(j as int))));
                assert(seq![word@] + split_ws(s@.skip(j as int)) =~= split_ws(t));
            }
            i = j;
        }
    }
    proof {
        assert(s@.skip(n as int) =~= Seq::<char>::empty());
        assert(out.deep_view() + Seq::<Seq<char>>::empty() =~= out.deep_view());
    }
    out
}

/// The decimal digit character for a value below ten.
pub open spec fn dec_digit_char(d: nat) -> char {
    seq!['0', '1', '2', '3', '4', '5', '6', '7', '8', '9'][d as int]
}

/// The decimal representation of a number, without leading zeros (a single
/// `'0'` for zero), as integer formatting produces it.
pub open spec fn dec_str(n: nat) -> Seq<char>
    decreases n,
{
    if n < 10 {
        seq![dec_digit_char(n)]
    } else {
        dec_str(n / 10) + seq![dec_digit_char(n % 10)]
    }
}

/// The string of one decimal digit.
fn digit_str(d: usize) -> (r: &'static str)
    requires
        d < 10,
    ensures
        r@ == seq![dec_digit_char(d as nat)],
{
    proof {
        reveal_strlit("0");
        reveal_strlit("1");
        reveal_strlit("2");
        reveal_strlit("3");
        reveal_strlit("4");
        reveal_strlit("5");
        reveal_strlit("6");
        reveal_strlit("7");
        reveal_strlit("8");
        reveal_strlit("9");
    }
    let r = if d == 0 {
        "0"
    } else if d == 1 {
        "1"
    } else if d == 2 {
        "2"
    } else if d == 3 {
        "3"
    } else if d == 4 {
        "4"
    } else if d == 5 {
        "5"
    } else if d == 6 {
        "6"
    } else if d == 7 {
        "7"
    } else if d == 8 {
        "8"
    } else {
        "9"
    };
    proof {
        assert(r@ =~= seq![dec_digit_char(d as nat)]);
    }
    r
}

/// A decimal digit character.
pub open spec fn is_dec_digit(c: char) -> bool {
    0x30 <= c as u32 && c as u32 <= 0x39
}

/// The value of a decimal digit character.
pub open spec fn digit_val(c: char) -> nat
    recommends
        is_dec_digit(c),
{
    (c as u32 - 0x30) as nat
}

/// Every character of the string is a decimal digit.
pub open spec fn all_dec_digits(s: Seq<char>) -> bool {
    forall|i: int| 0 <= i < s.len() ==> is_dec_digit(s[i])
}

/// The number a string of decimal digits denotes.
pub open spec fn dec_val(s: Seq<char>) -> nat
    recommends
        all_dec_digits(s),
    decreases s.len(),
{
    if s.len() == 0 {
        0
    } else {
        dec_val(s.drop_last()) * 10 + digit_val(s.last())
    }
}

/// The value of a digit string never drops when the string is extended.
proof fn lemma_dec_val_mono(s: Seq<char>, i: int)
    requires
        0 <= i <= s.len(),
    ensures
        dec_val(s.take(i)) <= dec_val(s),
    decreases s.len() - i,
{
    if i == s.len() {
        assert(s.take(i) =~= s);
    } else {
        assert(s.take(i + 1).drop_last() =~= s.take(i));
        assert(s.take(i + 1).last() == s[i]);
        assert(dec_val(s.take(i)) * 10 >= dec_val(s.take(i)));
        lemma_dec_val_mono(s, i + 1);
    }
}

/// Parse a decimal number. Returns its value exactly when the string is
/// non-empty, all digits, and the value fits in `usize`.
#[verifier::loop_isolation(false)]
pub fn parse_usize(s: &str) -> (r: Option<usize>)
    ensures
        r is Some <==> s@.len() > 0 && all_dec_digits(s@) && dec_val(s@) <= usize::MAX,
        r matches Some(n) ==> n as nat == dec_val(s@),
{
    let n = s.unicode_len();
    if n == 0 {
        return None;
    }
    let mut acc: usize = 0;
    let mut i: usize = 0;
    proof {
        assert(s@.take(0) =~= Seq::<char>::empty());
    }
    while i < n
        invariant
            0 <= i <= n,
            n == s@.len(),
            acc as nat == dec_val(s@.take(i as int)),
            forall|j: int| 0 <= j < i ==> is_dec_digit(s@[j]),
        decreases n - i,
    {
        let c = s.get_char(i);
        let u = c as u32;
        if u < 0x30 || u > 0x39 {
            return None;
        }
        let d = (u - 0x30) as usize;
        proof {
            assert(s@.take(i as int + 1).drop_last() =~= s@.take(i as int));
            assert(s@.take(i as int + 1).last() == s@[i as int]);
        }
        let scaled = match acc.checked_mul(10) {
            Some(v) => v,
            None => {
                proof {
                    assert(dec_val(s@.take(i as int + 1)) > usize::MAX);
                    lemma_dec_val_mono(s@, i as int + 1);
                }
                return None;
            },
        };
        acc = match scaled.checked_add(d) {
            Some(v) => v,
            None => {
                proof {
                    assert(dec_val(s@.take(i as int + 1)) > usize::MAX);
                    lemma_dec_val_mono(s@, i as int + 1);
                }
                return None;
            },
        };
        i += 1;
    }
    proof {
        assert(s@.take(n as int) =~= s@);
    }
    Some(acc)
}

/// The decimal digit characters carry their values: formatting a digit and
/// reading it back is the identity.
proof fn lemma_digit_char_val(d: nat)
    requires
        d < 10,
    ensures
        is_dec_digit(dec_digit_char(d)),
        digit_val(dec_digit_char(d)) == d,
{
    if d == 0 {
        assert(dec_digit_char(0) == '0');
    } else if d == 1 {
        assert(dec_digit_char(1) == '1');
    } else if d == 2 {
        assert(dec_digit_char(2) == '2');
    } else if d == 3 {
        assert(dec_digit_char(3) == '3');
    } else if d == 4 {
        assert(dec_digit_char(4) == '4');
    } else if d == 5 {
        assert(dec_digit_char(5) == '5');
    } else if d == 6 {
        assert(dec_digit_char(6) == '6');
    } else if d == 7 {
        assert(dec_digit_char(7) == '7');
    } else if d == 8 {
        assert(dec_digit_char(8) == '8');
    } else {
        assert(dec_digit_char(9) == '9');
    }
}

/// Formatting and parsing are inverse: the decimal string of a number is
/// all digits and denotes the number itself. The identifiers the results
/// carry as arguments therefore parse back to the record they name.
pub proof fn lemma_dec_round_trip(n: nat)
    ensures
        all_dec_digits(dec_str(n)),
        dec_val(dec_str(n)) == n,
    decreases n,
{
    if n < 10 {
        lemma_digit_char_val(n);
        let s = dec_str(n);
        assert(s.drop_last() =~= Seq::<char>::empty());
        assert(s.last() == dec_digit_char(n));
        assert(dec_val(s) == dec_val(Seq::<char>::empty()) * 10 + digit_val(dec_digit_char(n)));
        assert(dec_val(Seq::<char>::empty()) == 0);
        assert(dec_val(s) == n);
    } else {
        lemma_dec_round_trip(n / 10);
        lemma_digit_char_val(n % 10);
        let s = dec_str(n);
        assert(s.drop_last() =~= dec_str(n / 10));
        assert(s.last() == dec_digit_char(n % 10));
        assert(dec_val(s) == dec_val(dec_str(n / 10)) * 10 + digit_val(dec_digit_char(n % 10)));
        assert((n / 10) * 10 + n % 10 == n);
        assert forall|i: int| 0 <= i < s.len() implies is_dec_digit(s[i]) by {
            if i < s.len() - 1 {
                assert(s[i] == dec_str(n / 10)[i]);
            }
        }
    }
}

/// Format a number in decimal.
pub fn usize_to_string(n: usize) -> (r: String)
    ensures
        r@ == dec_str(n as nat),
    decreases n,
{
    if n < 10 {
        digit_str(n).to_owned()
    } else {
        let mut prefix = usize_to_string(n / 10);
        prefix.append(digit_str(n % 10));
        prefix
    }
}

} // verus!
