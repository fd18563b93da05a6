//! Character-sequence machinery: substring search and literal replacement,
//! with the specification-level functions the rest of the library states its
//! contracts over.

use vstd::prelude::*;

verus! {

/// The pattern `pat` occurs in `s` starting at index `i`.
pub open spec fn matches_at(s: Seq<char>, pat: Seq<char>, i: int) -> bool {
    0 <= i && i + pat.len() <= s.len() && s.subrange(i, i + pat.len() as int) == pat
}

/// The pattern `pat` occurs somewhere in `s`.
pub open spec fn contains_sub(s: Seq<char>, pat: Seq<char>) -> bool {
    exists|i: int| matches_at(s, pat, i)
}

/// Leftmost, non-overlapping replacement of every occurrence of `pat` in `s`
/// by `rep`; an empty pattern leaves `s` unchanged.
pub open spec fn replace_all(s: Seq<char>, pat: Seq<char>, rep: Seq<char>) -> Seq<char>
    decreases s.len(),
{
    if pat.len() == 0 || s.len() < pat.len() {
        s
    } else if s.subrange(0, pat.len() as int) == pat {
        rep + replace_all(s.skip(pat.len() as int), pat, rep)
    } else {
        seq![s[0]] + replace_all(s.skip(1), pat, rep)
    }
}

/// The characters of a string slice, as a vector.
pub fn chars_of(s: &str) -> (r: Vec<char>)
    ensures
        r@ == s@,
{
    let n = s.unicode_len();
    let mut r: Vec<char> = Vec::new();
    let mut i: usize = 0;
    while i < n
        invariant
            i <= n,
            n == s@.len(),
            r@ == s@.subrange(0, i as int),
        decreases n - i,
    {
        r.push(s.get_char(i));
        i = i + 1;
        proof {
            assert(r@ =~= s@.subrange(0, i as int));
        }
    }
    proof {
        assert(r@ =~= s@);
    }
    r
}

/// Relies on `String: FromIterator<char>` of std: collecting characters
/// builds the string holding exactly those characters in order.
#[verifier::external_body]
pub fn string_from_chars(v: &Vec<char>) -> (r: String)
    ensures
        r@ == v@,
{
    v.iter().collect()
}

/// Whether `pat` occurs in `s` at index `i`.
fn is_match_at(s: &Vec<char>, pat: &Vec<char>, i: usize) -> (r: bool)
    requires
        i + pat.len() <= s.len(),
    ensures
        r == matches_at(s@, pat@, i as int),
{
    let mut j: usize = 0;
    while j < pat.len()
        invariant
            j <= pat.len(),
            i + pat.len() <= s.len(),
            forall|k: int| 0 <= k < j ==> s@[i + k] == pat@[k],
        decreases pat.len() - j,
    {
        if s[i + j] != pat[j] {
            proof {
                assert(s@.subrange(i as int, i + pat@.len() as int)[j as int] != pat@[j as int]);
            }
            return false;
        }
        j = j + 1;
    }
    proof {
        assert(s@.subrange(i as int, i + pat@.len() as int) =~= pat@);
    }
    true
}

/// Whether `pat` occurs anywhere in `s`.
pub fn contains_chars(s: &Vec<char>, pat: &Vec<char>) -> (r: bool)
    requires
        pat.len() >= 1,
    ensures
        r == contains_sub(s@, pat@),
{
    if pat.len() > s.len() {
        proof {
            assert(forall|i: int| !matches_at(s@, pat@, i));
        }
        return false;
    }
    let mut i: usize = 0;
    let last = s.len() - pat.len();
    while i <= last
        invariant
            pat.len() >= 1,
            pat.len() <= s.len(),
            last == s.len() - pat.len(),
            i <= last + 1,
            forall|k: int| 0 <= k < i ==> !matches_at(s@, pat@, k),
        decreases last + 1 - i,
    {
        if is_match_at(s, pat, i) {
            proof {
                assert(matches_at(s@, pat@, i as int));
            }
            return true;
        }
        i = i + 1;
    }
    proof {
        assert(forall|k: int| matches_at(s@, pat@, k) ==> 0 <= k <= last as int);
        assert(forall|k: int| 0 <= k <= last as int ==> !matches_at(s@, pat@, k));
    }
    false
}

/// Replaces, leftmost first and without overlap, every occurrence of `pat`
/// in `s` by `rep`.
pub fn replace_chars(s: &Vec<char>, pat: &Vec<char>, rep: &Vec<char>) -> (r: Vec<char>)
    requires
        pat.len() >= 1,
    ensures
        r@ == replace_all(s@, pat@, rep@),
{
    let mut r: Vec<char> = Vec::new();
    let mut i: usize = 0;
    proof {
        assert(s@.skip(0) =~= s@);
        assert(r@ + replace_all(s@, pat@, rep@) =~= replace_all(s@, pat@, rep@));
    }
    if pat.len() > s.len() {
        let mut k: usize = 0;
        while k < s.len()
            invariant
                k <= s.len(),
                r@ == s@.subrange(0, k as int),
            decreases s.len() - k,
        {
            r.push(s[k]);
            k = k + 1;
            proof {
                assert(r@ =~= s@.subrange(0, k as int));
            }
        }
        proof {
            assert(r@ =~= s@);
        }
        return r;
    }
    let last = s.len() - pat.len();
    while i <= last
        invariant
            pat.len() >= 1,
            pat.len() <= s.len(),
            last == s.len() - pat.len(),
            i <= s.len(),
            r@ + replace_all(s@.skip(i as int), pat@, rep@) == replace_all(s@, pat@, rep@),
        decreases s.len() - i,
    {
        let ghost pre = r@;
        let ghost suffix = s@.skip(i as int);
        if is_match_at(s, pat, i) {
            proof {
                assert(suffix.subrange(0, pat@.len() as int) =~= s@.subrange(
                    i as int,
                    i + pat@.len() as int,
                ));
                assert(suffix.skip(pat@.len() as int) =~= s@.skip(i + pat@.len() as int));
                assert(replace_all(suffix, pat@, rep@) == rep@ + replace_all(
                    s@.skip(i + pat@.len() as int),
                    pat@,
                    rep@,
                ));
            }
            let mut j: usize = 0;
            while j < rep.len()
                invariant
                    j <= rep.len(),
                    r@ == pre + rep@.subrange(0, j as int),
                decreases rep.len() - j,
            {
                r.push(rep[j]);
                j = j + 1;
                proof {
                    assert(r@ =~= pre + rep@.subrange(0, j as int));
                }
            }
            proof {
                assert(rep@.subrange(0, rep@.len() as int) =~= rep@);
                assert(r@ + replace_all(s@.skip(i + pat@.len() as int), pat@, rep@) =~= pre
                    + replace_all(suffix, pat@, rep@));
            }
            i = i + pat.len();
        } else {
            proof {
                assert(suffix.subrange(0, pat@.len() as int) =~= s@.subrange(
                    i as int,
                    i + pat@.len() as int,
                ));
                assert(suffix.subrange(0, pat@.len() as int) != pat@) by {
                    if suffix.subrange(0, pat@.len() as int) == pat@ {
                        assert(matches_at(s@, pat@, i as int));
                    }
                }
                assert(suffix.skip(1) =~= s@.skip(i + 1));
                assert(suffix[0] == s@[i as int]);
                assert(replace_all(suffix, pat@, rep@) == seq![s@[i as int]] + replace_all(
                    s@.skip(i + 1),
                    pat@,
                    rep@,
                ));
            }
            r.push(s[i]);
            i = i + 1;
            proof {
                assert(r@ + replace_all(s@.skip(i as int), pat@, rep@) =~= pre + replace_all(
                    suffix,
                    pat@,
                    rep@,
                ));
            }
        }
    }
    proof {
        assert(s@.skip(i as int).len() < pat@.len());
        assert(replace_all(s@.skip(i as int), pat@, rep@) == s@.skip(i as int));
    }
    while i < s.len()
        invariant
            i <= s.len(),
            r@ + s@.skip(i as int) == replace_all(s@, pat@, rep@),
        decreases s.len() - i,
    {
        let ghost pre = r@;
        r.push(s[i]);
        i = i + 1;
        proof {
            assert(pre + s@.skip(i - 1) =~= r@ + s@.skip(i as int));
        }
    }
    proof {
        assert(r@ =~= r@ + s@.skip(i as int));
    }
    r
}

/// Whether two string slices hold the same characters.
pub fn str_eq(a: &str, b: &str) -> (r: bool)
    ensures
        r == (a@ == b@),
{
    let na = a.unicode_len();
    let nb = b.unicode_len();
    if na != nb {
        return false;
    }
    let mut i: usize = 0;
    while i < na
        invariant
            i <= na,
            na == a@.len(),
            na == b@.len(),
            forall|k: int| 0 <= k < i ==> a@[k] == b@[k],
        decreases na - i,
    {
        if a.get_char(i) != b.get_char(i) {
            return false;
        }
        i = i + 1;
    }
    proof {
        assert(a@ =~= b@);
    }
    true
}

/// Whether the list holds a string equal to `needle`.
pub fn contains_string(v: &Vec<String>, needle: &str) -> (r: bool)
    ensures
        r == v.deep_view().contains(needle@),
{
    let mut i: usize = 0;
    while i < v.len()
        invariant
            i <= v.len(),
            forall|k: int| 0 <= k < i ==> v.deep_view()[k] != needle@,
        decreases v.len() - i,
    {
        if str_eq(v[i].as_str(), needle) {
            proof {
                assert(v.deep_view()[i as int] == needle@);
            }
            return true;
        }
        i = i + 1;
    }
    false
}

/// A two-character pattern occurs at `i` exactly when the two characters
/// stand there.
pub proof fn lemma_match2_chars(s: Seq<char>, a: char, b: char, i: int)
    ensures
        matches_at(s, seq![a, b], i) <==> (0 <= i && i + 2 <= s.len() && s[i] == a && s[i + 1]
            == b),
{
    if 0 <= i && i + 2 <= s.len() {
        if s[i] == a && s[i + 1] == b {
            assert(s.subrange(i, i + 2) =~= seq![a, b]);
        }
        if matches_at(s, seq![a, b], i) {
            assert(s.subrange(i, i + 2)[0] == s[i]);
            assert(s.subrange(i, i + 2)[1] == s[i + 1]);
        }
    }
}

/// A pattern absent from `s` is absent from every suffix of `s`.
pub proof fn lemma_absent_in_skip(s: Seq<char>, pat: Seq<char>, k: int)
    requires
        !contains_sub(s, pat),
        0 <= k <= s.len(),
    ensures
        !contains_sub(s.skip(k), pat),
{
    assert forall|i: int| !matches_at(s.skip(k), pat, i) by {
        if matches_at(s.skip(k), pat, i) {
            assert(s.skip(k).subrange(i, i + pat.len() as int) =~= s.subrange(
                i + k,
                i + k + pat.len() as int,
            ));
            assert(matches_at(s, pat, i + k));
        }
    }
}

/// Replacing a pattern absent from `s` leaves `s` unchanged.
pub proof fn lemma_replace_all_absent(s: Seq<char>, pat: Seq<char>, rep: Seq<char>)
    requires
        pat.len() >= 1,
        !contains_sub(s, pat),
    ensures
        replace_all(s, pat, rep) == s,
    decreases s.len(),
{
    if s.len() < pat.len() {
    } else {
        assert(!matches_at(s, pat, 0));
        assert(s.subrange(0, pat.len() as int) != pat);
        lemma_absent_in_skip(s, pat, 1);
        lemma_replace_all_absent(s.skip(1), pat, rep);
        assert(seq![s[0]] + s.skip(1) =~= s);
    }
}

/// The first character of a two-for-one replacement's result is either the
/// replacement character or the first character of the input.
pub proof fn lemma_replace2_head(s: Seq<char>, a: char, b: char, c: char)
    ensures
        ({
            let r = replace_all(s, seq![a, b], seq![c]);
            r.len() > 0 ==> (r[0] == c || (s.len() > 0 && r[0] == s[0]))
        }),
{
    let pat = seq![a, b];
    let r = replace_all(s, pat, seq![c]);
    if s.len() < 2 {
    } else if s.subrange(0, 2) == pat {
        assert(r == seq![c] + replace_all(s.skip(2), pat, seq![c]));
        assert(r[0] == c);
    } else {
        assert(r == seq![s[0]] + replace_all(s.skip(1), pat, seq![c]));
        assert(r[0] == s[0]);
    }
}

/// After replacing each two-character pattern occurrence by a character that
/// differs from both pattern characters, the pattern no longer occurs.
pub proof fn lemma_replace2_no_pattern(s: Seq<char>, a: char, b: char, c: char)
    requires
        c != a,
        c != b,
    ensures
        !contains_sub(replace_all(s, seq![a, b], seq![c]), seq![a, b]),
    decreases s.len(),
{
    let pat = seq![a, b];
    let r = replace_all(s, pat, seq![c]);
    if s.len() < 2 {
        assert forall|i: int| !matches_at(r, pat, i) by {
            lemma_match2_chars(r, a, b, i);
        }
    } else if s.subrange(0, 2) == pat {
        let rest = replace_all(s.skip(2), pat, seq![c]);
        lemma_replace2_no_pattern(s.skip(2), a, b, c);
        assert(r == seq![c] + rest);
        assert forall|i: int| !matches_at(r, pat, i) by {
            lemma_match2_chars(r, a, b, i);
            if 0 <= i && i + 2 <= r.len() && r[i] == a && r[i + 1] == b {
                if i == 0 {
                    assert(r[0] == c);
                } else {
                    lemma_match2_chars(rest, a, b, i - 1);
                    assert(matches_at(rest, pat, i - 1));
                }
            }
        }
    } else {
        let rest = replace_all(s.skip(1), pat, seq![c]);
        lemma_replace2_no_pattern(s.skip(1), a, b, c);
        lemma_replace2_head(s.skip(1), a, b, c);
        assert(r == seq![s[0]] + rest);
        lemma_match2_chars(s, a, b, 0);
        assert forall|i: int| !matches_at(r, pat, i) by {
            lemma_match2_chars(r, a, b, i);
            if 0 <= i && i + 2 <= r.len() && r[i] == a && r[i + 1] == b {
                if i == 0 {
                    assert(r[0] == s[0]);
                    assert(r[1] == rest[0]);
                    assert(rest[0] == c || rest[0] == s.skip(1)[0]);
                    assert(s[0] == a && s[1] == b);
                    assert(matches_at(s, pat, 0));
                } else {
                    lemma_match2_chars(rest, a, b, i - 1);
                    assert(matches_at(rest, pat, i - 1));
                }
            }
        }
    }
}

/// A two-character pattern absent from `s` stays absent after some other
/// two-for-one replacement whose replacement character differs from both of
/// the absent pattern's characters.
pub proof fn lemma_replace2_keeps_absent(
    s: Seq<char>,
    a: char,
    b: char,
    c: char,
    x: char,
    y: char,
)
    requires
        c != x,
        c != y,
        !contains_sub(s, seq![x, y]),
    ensures
        !contains_sub(replace_all(s, seq![a, b], seq![c]), seq![x, y]),
    decreases s.len(),
{
    let pat = seq![a, b];
    let miss = seq![x, y];
    let r = replace_all(s, pat, seq![c]);
    if s.len() < 2 {
        assert forall|i: int| !matches_at(r, miss, i) by {
            lemma_match2_chars(r, x, y, i);
            lemma_match2_chars(s, x, y, i);
        }
    } else if s.subrange(0, 2) == pat {
        let rest = replace_all(s.skip(2), pat, seq![c]);
        lemma_absent_in_skip(s, miss, 2);
        lemma_replace2_keeps_absent(s.skip(2), a, b, c, x, y);
        assert(r == seq![c] + rest);
        assert forall|i: int| !matches_at(r, miss, i) by {
            lemma_match2_chars(r, x, y, i);
            if 0 <= i && i + 2 <= r.len() && r[i] == x && r[i + 1] == y {
                if i == 0 {
                    assert(r[0] == c);
                } else {
                    lemma_match2_chars(rest, x, y, i - 1);
                    assert(matches_at(rest, miss, i - 1));
                }
            }
        }
    } else {
        let rest = replace_all(s.skip(1), pat, seq![c]);
        lemma_absent_in_skip(s, miss, 1);
        lemma_replace2_keeps_absent(s.skip(1), a, b, c, x, y);
        lemma_replace2_head(s.skip(1), a, b, c);
        assert(r == seq![s[0]] + rest);
        assert forall|i: int| !matches_at(r, miss, i) by {
            lemma_match2_chars(r, x, y, i);
            if 0 <= i && i + 2 <= r.len() && r[i] == x && r[i + 1] == y {
                if i == 0 {
                    assert(r[0] == s[0]);
                    assert(r[1] == rest[0]);
                    assert(rest[0] == c || rest[0] == s.skip(1)[0]);
                    assert(s[0] == x && s[1] == y);
                    lemma_match2_chars(s, x, y, 0);
                    assert(matches_at(s, miss, 0));
                } else {
                    lemma_match2_chars(rest, x, y, i - 1);
                    assert(matches_at(rest, miss, i - 1));
                }
            }
        }
    }
}

/// Wherever a two-character pattern occurs, the replacement character
/// appears in the result.
pub proof fn lemma_replace2_hits(s: Seq<char>, a: char, b: char, c: char)
    requires
        contains_sub(s, seq![a, b]),
    ensures
        replace_all(s, seq![a, b], seq![c]).contains(c),
    decreases s.len(),
{
    let pat = seq![a, b];
    let r = replace_all(s, pat, seq![c]);
    let i = choose|i: int| matches_at(s, pat, i);
    lemma_match2_chars(s, a, b, i);
    if s.subrange(0, 2) == pat {
        let rest = replace_all(s.skip(2), pat, seq![c]);
        assert(r == seq![c] + rest);
        assert(r[0] == c);
    } else {
        lemma_match2_chars(s, a, b, 0);
        assert(i >= 1);
        assert(s.skip(1).subrange(i - 1, i + 1) =~= s.subrange(i, i + 2));
        assert(matches_at(s.skip(1), pat, i - 1));
        lemma_replace2_hits(s.skip(1), a, b, c);
        let rest = replace_all(s.skip(1), pat, seq![c]);
        assert(r == seq![s[0]] + rest);
        let j = choose|j: int| 0 <= j < rest.len() && rest[j] == c;
        assert(r[j + 1] == c);
    }
}

} // verus!
