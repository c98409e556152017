use vstd::prelude::*;

verus! {

/// A character with the Unicode White_Space property (what `char::is_whitespace`
/// tests, and what `str::trim` removes).
pub open spec fn is_unicode_whitespace(c: char) -> bool {
    ||| ('\u{9}' <= c && c <= '\u{d}')
    ||| c == ' '
    ||| c == '\u{85}'
    ||| c == '\u{a0}'
    ||| c == '\u{1680}'
    ||| ('\u{2000}' <= c && c <= '\u{200a}')
    ||| c == '\u{2028}'
    ||| c == '\u{2029}'
    ||| c == '\u{202f}'
    ||| c == '\u{205f}'
    ||| c == '\u{3000}'
}

pub open spec fn trim_start(s: Seq<char>) -> Seq<char>
    decreases s.len(),
{
    if s.len() > 0 && is_unicode_whitespace(s[0]) {
        trim_start(s.drop_first())
    } else {
        s
    }
}

pub open spec fn trim_end(s: Seq<char>) -> Seq<char>
    decreases s.len(),
{
    if s.len() > 0 && is_unicode_whitespace(s.last()) {
        trim_end(s.drop_last())
    } else {
        s
    }
}

/// `s` without leading and trailing whitespace, as `str::trim` gives it.
pub open spec fn trimmed(s: Seq<char>) -> Seq<char> {
    trim_end(trim_start(s))
}

fn whitespace(c: char) -> (r: bool)
    ensures
        r == is_unicode_whitespace(c),
{
    ('\u{9}' <= c && c <= '\u{d}') || c == ' ' || c == '\u{85}' || c == '\u{a0}' || c == '\u{1680}'
        || ('\u{2000}' <= c && c <= '\u{200a}') || c == '\u{2028}' || c == '\u{2029}' || c
        == '\u{202f}' || c == '\u{205f}' || c == '\u{3000}'
}

proof fn lemma_trim_start(s: Seq<char>, k: int)
    requires
        0 <= k <= s.len(),
        forall|j: int| 0 <= j < k ==> is_unicode_whitespace(#[trigger] s[j]),
        k == s.len() || !is_unicode_whitespace(s[k]),
    ensures
        trim_start(s) == s.skip(k),
    decreases k,
{
    if k == 0 {
        assert(s.skip(0) =~= s);
    } else {
        let t = s.drop_first();
        assert forall|j: int| 0 <= j < k - 1 implies is_unicode_whitespace(#[trigger] t[j]) by {
            assert(t[j] == s[j + 1]);
        }
        if k - 1 < t.len() {
            assert(t[k - 1] == s[k]);
        }
        lemma_trim_start(t, k - 1);
        assert(t.skip(k - 1) =~= s.skip(k));
    }
}

proof fn lemma_trim_end(s: Seq<char>, m: int)
    requires
        0 <= m <= s.len(),
        forall|j: int| m <= j < s.len() ==> is_unicode_whitespace(#[trigger] s[j]),
        m == 0 || !is_unicode_whitespace(s[m - 1]),
    ensures
        trim_end(s) == s.take(m),
    decreases s.len() - m,
{
    if m == s.len() {
        assert(s.take(m) =~= s);
    } else {
        let t = s.drop_last();
        assert forall|j: int| m <= j < t.len() implies is_unicode_whitespace(#[trigger] t[j]) by {
            assert(t[j] == s[j]);
        }
        if m > 0 {
            assert(t[m - 1] == s[m - 1]);
        }
        lemma_trim_end(t, m);
        assert(t.take(m) =~= s.take(m));
    }
}

proof fn lemma_leading_whitespace(s: Seq<char>, i: int) -> (a: int)
    requires
        0 <= i <= s.len(),
        forall|j: int| 0 <= j < i ==> is_unicode_whitespace(#[trigger] s[j]),
    ensures
        i <= a <= s.len(),
        forall|j: int| 0 <= j < a ==> is_unicode_whitespace(#[trigger] s[j]),
        a == s.len() || !is_unicode_whitespace(s[a]),
    decreases s.len() - i,
{
    if i < s.len() && is_unicode_whitespace(s[i]) {
        lemma_leading_whitespace(s, i + 1)
    } else {
        i
    }
}

proof fn lemma_trailing_whitespace(s: Seq<char>, a: int, b: int) -> (m: int)
    requires
        0 <= a <= b <= s.len(),
        forall|j: int| b <= j < s.len() ==> is_unicode_whitespace(#[trigger] s[j]),
    ensures
        a <= m <= b,
        forall|j: int| m <= j < s.len() ==> is_unicode_whitespace(#[trigger] s[j]),
        m == a || !is_unicode_whitespace(s[m - 1]),
    decreases b - a,
{
    if b > a && is_unicode_whitespace(s[b - 1]) {
        lemma_trailing_whitespace(s, a, b - 1)
    } else {
        b
    }
}

/// Law: trimming keeps one contiguous piece of the text and removes only
/// whitespace, all of it at the two ends: what is kept neither starts nor ends
/// with whitespace, and it is empty only when the text is all whitespace.
pub proof fn law_trim_removes_only_edge_whitespace(s: Seq<char>)
    ensures
        exists|a: int, b: int|
            {
                &&& 0 <= a <= b <= s.len()
                &&& trimmed(s) == s.subrange(a, b)
                &&& forall|j: int| 0 <= j < a ==> is_unicode_whitespace(#[trigger] s[j])
                &&& forall|j: int| b <= j < s.len() ==> is_unicode_whitespace(#[trigger] s[j])
                &&& a < b ==> !is_unicode_whitespace(s[a]) && !is_unicode_whitespace(s[b - 1])
            },
{
    let a = lemma_leading_whitespace(s, 0);
    let b = lemma_trailing_whitespace(s, a, s.len() as int);
    lemma_trim_start(s, a);
    let t = s.skip(a);
    assert forall|j: int| b - a <= j < t.len() implies is_unicode_whitespace(#[trigger] t[j]) by {
        assert(t[j] == s[j + a]);
    }
    if b > a {
        assert(t[b - a - 1] == s[b - 1]);
    }
    lemma_trim_end(t, b - a);
    assert(t.take(b - a) =~= s.subrange(a, b));
}

/// `s` without leading and trailing whitespace (`str::trim`).
pub fn trim(s: &str) -> (r: &str)
    ensures
        r@ == trimmed(s@),
{
    let n = s.unicode_len();
    let mut a: usize = 0;
    while a < n && whitespace(s.get_char(a))
        invariant
            n == s@.len(),
            a <= n,
            forall|j: int| 0 <= j < a ==> is_unicode_whitespace(#[trigger] s@[j]),
        decreases n - a,
    {
        a += 1;
    }
    let mut b: usize = n;
    while b > a && whitespace(s.get_char(b - 1))
        invariant
            n == s@.len(),
            a <= b <= n,
            forall|j: int| b <= j < n ==> is_unicode_whitespace(#[trigger] s@[j]),
        decreases b - a,
    {
        b -= 1;
    }
    proof {
        lemma_trim_start(s@, a as int);
        let t = s@.skip(a as int);
        assert forall|j: int| b - a <= j < t.len() implies is_unicode_whitespace(#[trigger] t[j]) by {
            assert(t[j] == s@[j + a]);
        }
        if b > a {
            assert(t[b - a - 1] == s@[b - 1]);
        }
        lemma_trim_end(t, b - a);
        assert(t.take(b - a) =~= s@.subrange(a as int, b as int));
    }
    s.substring_char(a, b)
}

/// Whether two texts are equal.
pub fn str_equal(a: &str, b: &str) -> (eq: bool)
    ensures
        eq == (a@ == b@),
{
    let n = a.unicode_len();
    if n != b.unicode_len() {
        return false;
    }
    let mut i: usize = 0;
    while i < n
        invariant
            n == a@.len(),
            n == b@.len(),
            i <= n,
            forall|j: int| 0 <= j < i ==> a@[j] == b@[j],
        decreases n - i,
    {
        if a.get_char(i) != b.get_char(i) {
            return false;
        }
        i += 1;
    }
    assert(a@ =~= b@);
    true
}

} // verus!
