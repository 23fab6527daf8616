//! String helpers shared by the classifier, the auth stage and the preview
//! builder: ASCII case folding, substring search, prefix tests and
//! character-bounded truncation.
use vstd::prelude::*;
use vstd::string::StrSliceExecFns;
use vstd::string::StringExecFns;

verus! {

/// One character folded to lower case, ASCII-wise, as a Unicode scalar value.
pub open spec fn fold_char(c: char) -> u32 {
    if 65 <= c as u32 && c as u32 <= 90 {
        (c as u32 + 32) as u32
    } else {
        c as u32
    }
}

/// The whole sequence folded to lower case, ASCII-wise.
pub open spec fn folded(s: Seq<char>) -> Seq<u32> {
    s.map_values(|c: char| fold_char(c))
}

/// The pattern occurs at position `k` of `s`, compared case-insensitively.
pub open spec fn match_at(s: Seq<char>, pat: Seq<char>, k: int) -> bool {
    &&& 0 <= k
    &&& k + pat.len() <= s.len()
    &&& folded(s.subrange(k, k + pat.len())) == folded(pat)
}

/// The pattern occurs somewhere in `s`, compared case-insensitively.
pub open spec fn contains_folded(s: Seq<char>, pat: Seq<char>) -> bool {
    exists|k: int| match_at(s, pat, k)
}

/// `s` starts with the pattern, compared case-insensitively.
pub open spec fn starts_with_folded(s: Seq<char>, pat: Seq<char>) -> bool {
    match_at(s, pat, 0)
}

/// Folding commutes with taking a subrange.
pub proof fn lemma_folded_subrange(s: Seq<char>, i: int, j: int)
    requires
        0 <= i <= j <= s.len(),
    ensures
        folded(s.subrange(i, j)) =~= folded(s).subrange(i, j),
{
}

fn fold_one(c: char) -> (r: u32)
    ensures
        r == fold_char(c),
{
    let v = c as u32;
    if 65 <= v && v <= 90 {
        v + 32
    } else {
        v
    }
}

/// Whether the pattern stands at position `k` of `s`, case-insensitively.
#[verifier::loop_isolation(false)]
fn match_at_exec(s: &str, pat: &str, k: usize, m: usize) -> (r: bool)
    requires
        m == pat@.len(),
        k + m <= s@.len(),
        s@.len() <= usize::MAX,
    ensures
        r == match_at(s@, pat@, k as int),
{
    let mut j: usize = 0;
    while j < m
        invariant
            0 <= j <= m,
            forall|l: int| 0 <= l < j ==> fold_char(s@[k + l]) == fold_char(pat@[l]),
        decreases m - j,
    {
        let cs = s.get_char(k + j);
        let cp = pat.get_char(j);
        if fold_one(cs) != fold_one(cp) {
            proof {
                assert(folded(s@.subrange(k as int, k + m))[j as int] == fold_char(s@[k + j]));
                assert(folded(pat@)[j as int] == fold_char(pat@[j as int]));
            }
            return false;
        }
        j = j + 1;
    }
    proof {
        assert(folded(s@.subrange(k as int, k + m)) =~= folded(pat@));
    }
    true
}

/// Whether `s` contains the pattern, compared case-insensitively.
#[verifier::loop_isolation(false)]
pub fn contains_folded_exec(s: &str, pat: &str) -> (r: bool)
    ensures
        r == contains_folded(s@, pat@),
{
    let n = s.unicode_len();
    let m = pat.unicode_len();
    if m > n {
        return false;
    }
    if m == 0 {
        proof {
            assert(match_at(s@, pat@, 0)) by {
                assert(folded(s@.subrange(0, 0)) =~= folded(pat@));
            }
        }
        return true;
    }
    let bound = n - m;
    let mut i: usize = 0;
    while i <= bound
        invariant
            i <= bound + 1,
            forall|k: int| 0 <= k < i ==> !match_at(s@, pat@, k),
        decreases bound + 1 - i,
    {
        if match_at_exec(s, pat, i, m) {
            return true;
        }
        i = i + 1;
    }
    false
}

/// Whether `s` starts with the pattern, compared case-insensitively.
pub fn starts_with_folded_exec(s: &str, pat: &str) -> (r: bool)
    ensures
        r == starts_with_folded(s@, pat@),
{
    let n = s.unicode_len();
    let m = pat.unicode_len();
    if m > n {
        return false;
    }
    match_at_exec(s, pat, 0, m)
}

/// Whether `s` starts with the pattern, compared exactly.
#[verifier::loop_isolation(false)]
pub fn starts_with_exact(s: &str, pat: &str) -> (r: bool)
    ensures
        r == (pat@.len() <= s@.len() && s@.subrange(0, pat@.len() as int) == pat@),
{
    let n = s.unicode_len();
    let m = pat.unicode_len();
    if m > n {
        return false;
    }
    let mut j: usize = 0;
    while j < m
        invariant
            0 <= j <= m <= n,
            forall|l: int| 0 <= l < j ==> s@[l] == pat@[l],
        decreases m - j,
    {
        if s.get_char(j) != pat.get_char(j) {
            proof {
                assert(s@.subrange(0, m as int)[j as int] == s@[j as int]);
            }
            return false;
        }
        j = j + 1;
    }
    proof {
        assert(s@.subrange(0, m as int) =~= pat@);
    }
    true
}

/// Whether the two string slices hold the same characters.
#[verifier::loop_isolation(false)]
pub fn str_eq(a: &str, b: &str) -> (r: bool)
    ensures
        r == (a@ == b@),
{
    let n = a.unicode_len();
    let m = b.unicode_len();
    if n != m {
        return false;
    }
    let mut j: usize = 0;
    while j < n
        invariant
            0 <= j <= n,
            n == m,
            forall|l: int| 0 <= l < j ==> a@[l] == b@[l],
        decreases n - j,
    {
        if a.get_char(j) != b.get_char(j) {
            return false;
        }
        j = j + 1;
    }
    proof {
        assert(a@ =~= b@);
    }
    true
}

/// The suffix of `s` after its last slash; all of `s` if it has none.
pub open spec fn suffix_after_last_slash(s: Seq<char>) -> Seq<char>
    decreases s.len(),
{
    if s.len() == 0 {
        s
    } else if s.last() == '/' {
        Seq::<char>::empty()
    } else {
        suffix_after_last_slash(s.drop_last()).push(s.last())
    }
}

proof fn lemma_suffix_after_last_slash(s: Seq<char>, k: int)
    requires
        0 <= k <= s.len(),
        forall|j: int| k <= j < s.len() ==> s[j] != '/',
        k > 0 ==> s[k - 1] == '/',
    ensures
        suffix_after_last_slash(s) == s.subrange(k, s.len() as int),
    decreases s.len(),
{
    if s.len() == 0 {
        assert(suffix_after_last_slash(s) =~= s.subrange(0, 0));
    } else if k == s.len() {
        assert(suffix_after_last_slash(s) =~= s.subrange(k, s.len() as int));
    } else {
        lemma_suffix_after_last_slash(s.drop_last(), k);
        assert(s.drop_last().subrange(k, s.len() - 1) =~= s.subrange(k, s.len() - 1));
        assert(s.subrange(k, s.len() - 1).push(s.last()) =~= s.subrange(k, s.len() as int));
    }
}

/// The last slash-separated segment of `s`: the queue name at the end of
/// a queue URL.
#[verifier::loop_isolation(false)]
pub fn last_segment(s: &str) -> (r: String)
    ensures
        r@ == suffix_after_last_slash(s@),
{
    let n = s.unicode_len();
    let mut cut: usize = 0;
    let mut i: usize = 0;
    while i < n
        invariant
            i <= n,
            cut <= i,
            forall|j: int| cut <= j < i ==> s@[j] != '/',
            cut > 0 ==> s@[cut - 1] == '/',
        decreases n - i,
    {
        if s.get_char(i) == '/' {
            cut = i + 1;
        }
        i = i + 1;
    }
    proof {
        lemma_suffix_after_last_slash(s@, cut as int);
    }
    String::from_str(s.substring_char(cut, n))
}

/// `s` unchanged if it has at most `max` characters, else its first `max`
/// characters with a three-character ellipsis appended.
pub open spec fn truncated(s: Seq<char>, max: int) -> Seq<char> {
    if s.len() > max {
        s.subrange(0, max) + "..."@
    } else {
        s
    }
}

/// Truncate `s` to at most `max` characters, marking a cut with an ellipsis.
pub fn truncate_with_ellipsis(s: &str, max: usize) -> (r: String)
    ensures
        r@ == truncated(s@, max as int),
{
    let n = s.unicode_len();
    if n > max {
        let head = s.substring_char(0, max);
        let mut out = String::from_str(head);
        out.append("...");
        out
    } else {
        String::from_str(s)
    }
}

} // verus!
