//! Character-level string utilities shared by the pipeline stages:
//! equality, ASCII trimming, first-line extraction and substring search.

use vstd::prelude::*;
use vstd::string::StrSliceExecFns;
use vstd::string::StringExecFns;

verus! {

/// Character-for-character equality of two string slices.
pub fn str_eq(a: &str, b: &str) -> (r: bool)
    ensures
        r == (a@ == b@),
{
    let la = a.unicode_len();
    let lb = b.unicode_len();
    if la != lb {
        return false;
    }
    let mut i: usize = 0;
    while i < la
        invariant
            i <= la,
            la == a@.len(),
            la == b@.len(),
            forall|j: int| 0 <= j < i ==> a@[j] == b@[j],
        decreases la - i,
    {
        if a.get_char(i) != b.get_char(i) {
            return false;
        }
        i += 1;
    }
    proof {
        assert(a@ =~= b@);
    }
    true
}

/// The whitespace characters that trimming removes: the ASCII blanks that
/// terminal input can carry (space, tab, line feed, carriage return,
/// vertical tab, form feed).
pub open spec fn is_ascii_space(c: char) -> bool {
    c == ' ' || c == '\t' || c == '\n' || c == '\r' || c == '\u{b}' || c == '\u{c}'
}

fn is_space_char(c: char) -> (r: bool)
    ensures
        r == is_ascii_space(c),
{
    c == ' ' || c == '\t' || c == '\n' || c == '\r' || c == '\u{b}' || c == '\u{c}'
}

/// `s` without its leading ASCII whitespace.
pub open spec fn trim_start_of(s: Seq<char>) -> Seq<char>
    decreases s.len(),
{
    if s.len() > 0 && is_ascii_space(s[0]) {
        trim_start_of(s.drop_first())
    } else {
        s
    }
}

/// `s` without its trailing ASCII whitespace.
pub open spec fn trim_end_of(s: Seq<char>) -> Seq<char>
    decreases s.len(),
{
    if s.len() > 0 && is_ascii_space(s.last()) {
        trim_end_of(s.drop_last())
    } else {
        s
    }
}

/// `s` without leading and trailing ASCII whitespace.
pub open spec fn trim_of(s: Seq<char>) -> Seq<char> {
    trim_end_of(trim_start_of(s))
}

proof fn lemma_trim_start_is_suffix(s: Seq<char>, a: int)
    requires
        0 <= a <= s.len(),
        forall|j: int| 0 <= j < a ==> is_ascii_space(s[j]),
        a < s.len() ==> !is_ascii_space(s[a]),
    ensures
        trim_start_of(s) == s.subrange(a, s.len() as int),
    decreases a,
{
    if a == 0 {
        assert(s.subrange(0, s.len() as int) =~= s);
    } else {
        let t = s.drop_first();
        assert(t =~= s.subrange(1, s.len() as int));
        lemma_trim_start_is_suffix(t, a - 1);
        assert(t.subrange(a - 1, t.len() as int) =~= s.subrange(a, s.len() as int));
    }
}

proof fn lemma_trim_end_is_prefix(s: Seq<char>, b: int)
    requires
        0 <= b <= s.len(),
        forall|j: int| b <= j < s.len() ==> is_ascii_space(s[j]),
        b > 0 ==> !is_ascii_space(s[b - 1]),
    ensures
        trim_end_of(s) == s.subrange(0, b),
    decreases s.len(),
{
    if b == s.len() {
        if s.len() > 0 {
            assert(!is_ascii_space(s.last()));
        }
        assert(s.subrange(0, s.len() as int) =~= s);
    } else {
        assert(is_ascii_space(s.last()));
        let t = s.drop_last();
        lemma_trim_end_is_prefix(t, b);
        assert(t.subrange(0, b) =~= s.subrange(0, b));
    }
}

/// `s` with leading and trailing ASCII whitespace removed.
pub fn trim_spaces(s: &str) -> (r: String)
    ensures
        r@ == trim_of(s@),
{
    let n = s.unicode_len();
    let mut a: usize = 0;
    while a < n && is_space_char(s.get_char(a))
        invariant
            a <= n,
            n == s@.len(),
            forall|j: int| 0 <= j < a ==> is_ascii_space(s@[j]),
        decreases n - a,
    {
        a += 1;
    }
    proof {
        lemma_trim_start_is_suffix(s@, a as int);
    }
    let mut b: usize = n;
    while b > a && is_space_char(s.get_char(b - 1))
        invariant
            a <= b <= n,
            n == s@.len(),
            forall|j: int| b <= j < n ==> is_ascii_space(s@[j]),
        decreases b,
    {
        b -= 1;
    }
    proof {
        let t = s@.subrange(a as int, n as int);
        lemma_trim_end_is_prefix(t, b - a);
        assert(t.subrange(0, b - a) =~= s@.subrange(a as int, b as int));
    }
    s.substring_char(a, b).to_owned()
}

/// Whether `i` is the position of a line break in `s`.
pub open spec fn line_break_at(s: Seq<char>, i: int) -> bool {
    0 <= i < s.len() && s[i] == '\n'
}

/// Whether `s` contains a line break at all.
pub open spec fn has_line_break(s: Seq<char>) -> bool {
    exists|i: int| line_break_at(s, i)
}

/// The position of the first line break of `s`.
pub open spec fn first_break(s: Seq<char>) -> int {
    choose|i: int| line_break_at(s, i) && (forall|j: int| 0 <= j < i ==> s[j] != '\n')
}

/// Everything of `s` before its first line break; all of `s` if it has none.
pub open spec fn first_line_of(s: Seq<char>) -> Seq<char> {
    if has_line_break(s) {
        s.subrange(0, first_break(s))
    } else {
        s
    }
}

/// The content of `s` up to (not including) its first line feed.
pub fn first_line(s: &str) -> (r: String)
    ensures
        r@ == first_line_of(s@),
{
    let n = s.unicode_len();
    let mut i: usize = 0;
    while i < n
        invariant
            i <= n,
            n == s@.len(),
            forall|j: int| 0 <= j < i ==> s@[j] != '\n',
        decreases n - i,
    {
        if s.get_char(i) == '\n' {
            proof {
                let p = |k: int| line_break_at(s@, k) && (forall|j: int| 0 <= j < k ==> s@[j] != '\n');
                assert(p(i as int));
                let w = first_break(s@);
                assert(p(w));
                assert(w == i as int);
            }
            return s.substring_char(0, i).to_owned();
        }
        i += 1;
    }
    proof {
        assert(!has_line_break(s@));
    }
    s.to_owned()
}

/// Whether the pattern `pat` occurs in `s` starting at position `i`.
pub open spec fn match_at(s: Seq<char>, pat: Seq<char>, i: int) -> bool {
    0 <= i && i + pat.len() <= s.len() && s.subrange(i, i + pat.len() as int) == pat
}

/// Whether `pat` occurs anywhere in `s`.
pub open spec fn has_match(s: Seq<char>, pat: Seq<char>) -> bool {
    exists|i: int| match_at(s, pat, i)
}

/// The position of the last occurrence of `pat` in `s`.
pub open spec fn last_match(s: Seq<char>, pat: Seq<char>) -> int {
    choose|i: int| match_at(s, pat, i) && (forall|j: int| match_at(s, pat, j) ==> j <= i)
}

/// Everything of `s` after the last occurrence of `pat`; all of `s` if
/// `pat` does not occur.
pub open spec fn tail_after_last_match(s: Seq<char>, pat: Seq<char>) -> Seq<char> {
    if has_match(s, pat) {
        s.subrange(last_match(s, pat) + pat.len(), s.len() as int)
    } else {
        s
    }
}

fn match_at_exec(s: &str, pat: &str, i: usize, m: usize) -> (r: bool)
    requires
        m == pat@.len(),
        i + m <= s@.len(),
        s@.len() <= usize::MAX,
    ensures
        r == match_at(s@, pat@, i as int),
{
    let mut k: usize = 0;
    while k < m
        invariant
            k <= m,
            m == pat@.len(),
            i + m <= s@.len(),
            s@.len() <= usize::MAX,
            forall|j: int| 0 <= j < k ==> s@[i + j] == pat@[j],
        decreases m - k,
    {
        if s.get_char(i + k) != pat.get_char(k) {
            assert(s@.subrange(i as int, i + m) != pat@) by {
                assert(s@.subrange(i as int, i + m)[k as int] != pat@[k as int]);
            }
            return false;
        }
        k += 1;
    }
    proof {
        assert(s@.subrange(i as int, i + m) =~= pat@);
    }
    true
}

/// The items from position `i` on, each preceded by the separator.
pub open spec fn join_rest(items: Seq<Seq<char>>, sep: Seq<char>, i: nat) -> Seq<char>
    decreases items.len() - i,
{
    if i < items.len() {
        sep + items[i as int] + join_rest(items, sep, (i + 1) as nat)
    } else {
        Seq::empty()
    }
}

/// The items joined by the separator.
pub open spec fn joined_with(items: Seq<Seq<char>>, sep: Seq<char>) -> Seq<char> {
    if items.len() == 0 {
        Seq::empty()
    } else {
        items[0] + join_rest(items, sep, 1)
    }
}

/// Joins the items with the separator between each two.
pub fn join_with(items: &[String], sep: &str) -> (r: String)
    ensures
        r@ == joined_with(items.deep_view(), sep@),
{
    let n = items.len();
    let ghost iv = items.deep_view();
    proof {
        assert(iv.len() == n);
    }
    if n == 0 {
        return String::new();
    }
    let mut u = items[0].clone();
    proof {
        assert(iv[0] == items@[0]@);
    }
    let mut i: usize = 1;
    while i < n
        invariant
            1 <= i <= n,
            n == items@.len(),
            iv == items.deep_view(),
            iv.len() == n,
            u@ + join_rest(iv, sep@, i as nat) == iv[0] + join_rest(iv, sep@, 1),
        decreases n - i,
    {
        let ghost u0 = u@;
        u.append(sep);
        u.append(items[i].as_str());
        proof {
            assert(iv[i as int] == items@[i as int]@);
            assert(u@ =~= u0 + sep@ + iv[i as int]);
            assert(u@ + join_rest(iv, sep@, (i + 1) as nat) =~= u0 + join_rest(
                iv,
                sep@,
                i as nat,
            ));
        }
        i += 1;
    }
    u
}

/// The content of `s` after the last occurrence of `pat`, or all of `s`
/// if `pat` does not occur in it.
pub fn tail_after_last(s: &str, pat: &str) -> (r: String)
    ensures
        r@ == tail_after_last_match(s@, pat@),
{
    let n = s.unicode_len();
    let m = pat.unicode_len();
    if m == 0 {
        proof {
            let p = |k: int| match_at(s@, pat@, k) && (forall|j: int| match_at(s@, pat@, j) ==> j <= k);
            assert(pat@ =~= s@.subrange(n as int, n as int));
            assert(match_at(s@, pat@, n as int));
            assert(p(n as int));
            let w = last_match(s@, pat@);
            assert(p(w));
            assert(w == n as int);
            assert(s@.subrange(n as int, n as int) =~= Seq::<char>::empty());
        }
        return String::new();
    }
    if m > n {
        proof {
            assert(forall|j: int| !match_at(s@, pat@, j));
        }
        return s.to_owned();
    }
    let mut best: Option<usize> = None;
    let mut i: usize = 0;
    while i <= n - m
        invariant
            i <= n,
            n == s@.len(),
            m == pat@.len(),
            0 < m <= n,
            match best {
                Option::None => forall|j: int| 0 <= j < i ==> !match_at(s@, pat@, j),
                Option::Some(k) => match_at(s@, pat@, k as int) && k < i && (forall|j: int|
                    0 <= j < i && match_at(s@, pat@, j) ==> j <= k),
            },
        decreases n - i,
    {
        if match_at_exec(s, pat, i, m) {
            best = Some(i);
        }
        i += 1;
    }
    proof {
        assert(forall|j: int| j > n - m ==> !match_at(s@, pat@, j));
    }
    match best {
        None => {
            proof {
                assert(forall|j: int| !match_at(s@, pat@, j));
            }
            s.to_owned()
        },
        Some(k) => {
            proof {
                let p = |q: int| match_at(s@, pat@, q) && (forall|j: int|
                    match_at(s@, pat@, j) ==> j <= q);
                assert(p(k as int));
                let w = last_match(s@, pat@);
                assert(p(w));
                assert(w == k as int);
            }
            s.substring_char(k + m, n).to_owned()
        },
    }
}

} // verus!
