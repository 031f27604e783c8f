//! Character-sequence helpers used across the library.
use vstd::prelude::*;

verus! {

/// `needle` occurs in `hay` starting at position `i`.
pub open spec fn occurs_at(hay: Seq<char>, needle: Seq<char>, i: int) -> bool {
    0 <= i && i + needle.len() <= hay.len() && hay.subrange(i, i + needle.len()) == needle
}

/// `needle` is a contiguous part of `hay`.
pub open spec fn contains_spec(hay: Seq<char>, needle: Seq<char>) -> bool {
    exists|i: int| occurs_at(hay, needle, i)
}

/// Two characters are equal once ASCII upper-case letters are lowered.
pub open spec fn same_ignoring_ascii_case(a: char, b: char) -> bool {
    a == b || ('A' <= a && a <= 'Z' && a as u32 + 32 == b as u32) || ('A' <= b && b <= 'Z'
        && b as u32 + 32 == a as u32)
}

/// Equality of two sequences up to ASCII case.
pub open spec fn eq_ignore_ascii_case_spec(a: Seq<char>, b: Seq<char>) -> bool {
    a.len() == b.len() && forall|i: int| 0 <= i < a.len() ==> same_ignoring_ascii_case(a[i], b[i])
}

/// `a` followed by `b`.
pub fn concat(a: &str, b: &str) -> (r: String)
    ensures
        r@ == a@ + b@,
{
    let mut s = a.to_owned();
    s.append(b);
    s
}

/// `a`, then `b`, then `c`.
pub fn concat3(a: &str, b: &str, c: &str) -> (r: String)
    ensures
        r@ == a@ + b@ + c@,
{
    let mut s = a.to_owned();
    s.append(b);
    s.append(c);
    s
}

/// Equality of two string slices.
pub fn str_eq(a: &str, b: &str) -> (r: bool)
    ensures
        r == (a@ == b@),
{
    let x = a.to_owned();
    let y = b.to_owned();
    x == y
}

fn matches_at(hay: &str, needle: &str, i: usize, m: usize) -> (r: bool)
    requires
        m == needle@.len(),
        i + m <= hay@.len(),
        hay@.len() <= usize::MAX,
    ensures
        r == occurs_at(hay@, needle@, i as int),
{
    let mut j: usize = 0;
    while j < m
        invariant
            m == needle@.len(),
            i + m <= hay@.len(),
            hay@.len() <= usize::MAX,
            j <= m,
            forall|k: int| 0 <= k < j ==> hay@[i + k] == needle@[k],
        decreases m - j,
    {
        if hay.get_char(i + j) != needle.get_char(j) {
            assert(hay@.subrange(i as int, i + m)[j as int] != needle@[j as int]);
            return false;
        }
        j += 1;
    }
    assert(hay@.subrange(i as int, i + m) =~= needle@);
    true
}

/// Whether `needle` occurs in `hay`.
pub fn contains(hay: &str, needle: &str) -> (r: bool)
    ensures
        r == contains_spec(hay@, needle@),
{
    let n = hay.unicode_len();
    let m = needle.unicode_len();
    if m > n {
        return false;
    }
    if m == 0 {
        assert(hay@.subrange(0, 0) =~= needle@);
        assert(occurs_at(hay@, needle@, 0));
        return true;
    }
    let mut i: usize = 0;
    while i <= n - m
        invariant
            n == hay@.len(),
            m == needle@.len(),
            1 <= m <= n,
            i <= n - m + 1,
            forall|k: int| 0 <= k < i ==> !occurs_at(hay@, needle@, k),
        decreases n - m + 1 - i,
    {
        if matches_at(hay, needle, i, m) {
            return true;
        }
        i += 1;
    }
    false
}

/// Equality up to ASCII case, as `str::eq_ignore_ascii_case` defines it.
pub fn eq_ignore_ascii_case(a: &str, b: &str) -> (r: bool)
    ensures
        r == eq_ignore_ascii_case_spec(a@, b@),
{
    let n = a.unicode_len();
    if n != b.unicode_len() {
        return false;
    }
    let mut i: usize = 0;
    while i < n
        invariant
            n == a@.len(),
            n == b@.len(),
            i <= n,
            forall|k: int| 0 <= k < i ==> same_ignoring_ascii_case(a@[k], b@[k]),
        decreases n - i,
    {
        let x = a.get_char(i);
        let y = b.get_char(i);
        let same = x == y || ('A' <= x && x <= 'Z' && x as u32 + 32 == y as u32) || ('A' <= y && y
            <= 'Z' && y as u32 + 32 == x as u32);
        if !same {
            return false;
        }
        i += 1;
    }
    true
}

/// Every non-overlapping occurrence of `pat` in `s`, scanned left to right,
/// replaced by `rep`.
pub open spec fn replace_spec(s: Seq<char>, pat: Seq<char>, rep: Seq<char>) -> Seq<char>
    decreases s.len(),
{
    if s.len() == 0 {
        s
    } else if pat.len() > 0 && occurs_at(s, pat, 0) {
        rep + replace_spec(s.subrange(pat.len() as int, s.len() as int), pat, rep)
    } else {
        seq![s[0]] + replace_spec(s.subrange(1, s.len() as int), pat, rep)
    }
}

/// Replaces every occurrence of a non-empty token, as `str::replace` does.
pub fn replace_token(s: &str, pat: &str, rep: &str) -> (r: String)
    requires
        pat@.len() > 0,
    ensures
        r@ == replace_spec(s@, pat@, rep@),
{
    let n = s.unicode_len();
    let m = pat.unicode_len();
    let mut out = String::new();
    let mut i: usize = 0;
    assert(s@.subrange(0, n as int) =~= s@);
    assert(out@ + replace_spec(s@, pat@, rep@) =~= replace_spec(s@, pat@, rep@));
    while i < n
        invariant
            n == s@.len(),
            m == pat@.len(),
            m > 0,
            i <= n,
            out@ + replace_spec(s@.subrange(i as int, n as int), pat@, rep@) == replace_spec(
                s@,
                pat@,
                rep@,
            ),
        decreases n - i,
    {
        let rest = Ghost(s@.subrange(i as int, n as int));
        if m <= n - i && matches_at(s, pat, i, m) {
            assert(rest@.subrange(0, m as int) =~= s@.subrange(i as int, i + m));
            assert(occurs_at(rest@, pat@, 0));
            assert(rest@.subrange(m as int, rest@.len() as int) =~= s@.subrange(
                i + m,
                n as int,
            ));
            let ghost before = out@;
            out.append(rep);
            assert(out@ + replace_spec(s@.subrange(i + m, n as int), pat@, rep@) =~= before
                + replace_spec(rest@, pat@, rep@));
            i += m;
        } else {
            assert(!occurs_at(rest@, pat@, 0)) by {
                if occurs_at(rest@, pat@, 0) {
                    assert(s@.subrange(i as int, i + m) =~= rest@.subrange(0, m as int));
                }
            }
            assert(rest@.subrange(1, rest@.len() as int) =~= s@.subrange(i + 1, n as int));
            let c = s.substring_char(i, i + 1);
            assert(c@ =~= seq![rest@[0]]);
            let ghost before = out@;
            out.append(c);
            assert(out@ + replace_spec(s@.subrange(i + 1, n as int), pat@, rep@) =~= before
                + replace_spec(rest@, pat@, rep@));
            i += 1;
        }
    }
    assert(s@.subrange(n as int, n as int) =~= Seq::<char>::empty());
    assert(out@ + replace_spec(Seq::<char>::empty(), pat@, rep@) =~= out@);
    out
}

/// Position of the last `/` in `s`, or -1 when there is none.
pub open spec fn last_slash(s: Seq<char>) -> int
    decreases s.len(),
{
    if s.len() == 0 {
        -1
    } else if s.last() == '/' {
        s.len() - 1
    } else {
        last_slash(s.drop_last())
    }
}

/// What follows the last `/` (all of `s` when it holds none).
pub open spec fn after_last_slash(s: Seq<char>) -> Seq<char> {
    s.subrange(last_slash(s) + 1, s.len() as int)
}

/// What precedes the last `/` (empty when `s` holds none).
pub open spec fn before_last_slash(s: Seq<char>) -> Seq<char> {
    if last_slash(s) < 0 {
        Seq::empty()
    } else {
        s.subrange(0, last_slash(s))
    }
}

proof fn lemma_last_slash_range(s: Seq<char>)
    ensures
        -1 <= last_slash(s) < s.len(),
        last_slash(s) >= 0 ==> s[last_slash(s)] == '/',
    decreases s.len(),
{
    if s.len() > 0 && s.last() != '/' {
        lemma_last_slash_range(s.drop_last());
    }
}

proof fn lemma_last_slash_prefix(s: Seq<char>, j: int)
    requires
        0 <= j <= s.len(),
        forall|k: int| j <= k < s.len() ==> s[k] != '/',
    ensures
        last_slash(s) == last_slash(s.subrange(0, j)),
    decreases s.len(),
{
    if j < s.len() {
        lemma_last_slash_prefix(s.drop_last(), j);
        assert(s.drop_last().subrange(0, j) =~= s.subrange(0, j));
    } else {
        assert(s.subrange(0, j) =~= s);
    }
}

/// Position one past the last `/` of `s`, or 0 when it holds none.
fn segment_start(s: &str) -> (r: usize)
    ensures
        r == last_slash(s@) + 1,
{
    let n = s.unicode_len();
    let mut j: usize = n;
    while j > 0
        invariant
            n == s@.len(),
            j <= n,
            forall|k: int| j <= k < n ==> s@[k] != '/',
        decreases j,
    {
        if s.get_char(j - 1) == '/' {
            proof {
                lemma_last_slash_prefix(s@, j as int);
                assert(s@.subrange(0, j as int).last() == '/');
            }
            return j;
        }
        j -= 1;
    }
    proof {
        lemma_last_slash_prefix(s@, 0);
    }
    0
}

/// The last `/`-separated segment of a path.
pub fn file_name(path: &str) -> (r: String)
    ensures
        r@ == after_last_slash(path@),
{
    let start = segment_start(path);
    proof {
        lemma_last_slash_range(path@);
    }
    let n = path.unicode_len();
    path.substring_char(start, n).to_owned()
}

/// A path with its last `/`-separated segment removed.
pub fn parent_dir(path: &str) -> (r: String)
    ensures
        r@ == before_last_slash(path@),
{
    let start = segment_start(path);
    proof {
        lemma_last_slash_range(path@);
    }
    if start == 0 {
        String::new()
    } else {
        path.substring_char(0, start - 1).to_owned()
    }
}

/// A character that may stand in a shell function name.
pub open spec fn is_name_char(c: char) -> bool {
    ('a' <= c && c <= 'z') || ('A' <= c && c <= 'Z') || ('0' <= c && c <= '9') || c == '_'
}

/// `s` with each character that may not stand in a shell function name
/// replaced by `_`.
pub open spec fn normalized_name(s: Seq<char>) -> Seq<char> {
    Seq::new(s.len(), |i: int| if is_name_char(s[i]) { s[i] } else { '_' })
}

/// Makes a name usable as a shell function name.
pub fn normalize_name(s: &str) -> (r: String)
    ensures
        r@ == normalized_name(s@),
{
    let n = s.unicode_len();
    let mut out = String::new();
    let mut i: usize = 0;
    while i < n
        invariant
            n == s@.len(),
            i <= n,
            out@ =~= normalized_name(s@).subrange(0, i as int),
        decreases n - i,
    {
        let c = s.get_char(i);
        if ('a' <= c && c <= 'z') || ('A' <= c && c <= 'Z') || ('0' <= c && c <= '9') || c == '_' {
            let piece = s.substring_char(i, i + 1);
            out.append(piece);
        } else {
            out.append("_");
            proof {
                reveal_strlit("_");
            }
        }
        i += 1;
    }
    out
}

/// What `str::to_lowercase` returns for a character sequence.
pub uninterp spec fn lower_of(s: Seq<char>) -> Seq<char>;

/// Relies on `str::to_lowercase`: Unicode lower-casing, a function of the
/// characters alone.
#[verifier::external_body]
pub(crate) fn lowercase(s: &str) -> (r: String)
    ensures
        r@ == lower_of(s@),
{
    s.to_lowercase()
}

/// What `str::trim` returns for a character sequence.
pub uninterp spec fn trimmed_of(s: Seq<char>) -> Seq<char>;

/// Relies on `str::trim`: leading and trailing Unicode white space removed,
/// a function of the characters alone.
#[verifier::external_body]
pub(crate) fn trim(s: &str) -> (r: &str)
    ensures
        r@ == trimmed_of(s@),
{
    s.trim()
}

} // verus!
