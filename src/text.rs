//! Character-level helpers: Unicode whitespace, word splitting, substring
//! search and trimming, all stated over `Seq<char>`.
use vstd::prelude::*;

verus! {

/// The Unicode `White_Space` property.
pub open spec fn is_ws(c: char) -> bool {
    let u = c as u32;
    ||| 0x09 <= u <= 0x0D
    ||| u == 0x20
    ||| u == 0x85
    ||| u == 0xA0
    ||| u == 0x1680
    ||| 0x2000 <= u <= 0x200A
    ||| u == 0x2028
    ||| u == 0x2029
    ||| u == 0x202F
    ||| u == 0x205F
    ||| u == 0x3000
}

/// Whether `c` is Unicode whitespace.
pub fn is_whitespace(c: char) -> (r: bool)
    ensures
        r == is_ws(c),
{
    let u = c as u32;
    (0x09 <= u && u <= 0x0D) || u == 0x20 || u == 0x85 || u == 0xA0 || u == 0x1680 || (0x2000
        <= u && u <= 0x200A) || u == 0x2028 || u == 0x2029 || u == 0x202F || u == 0x205F || u
        == 0x3000
}

/// The characters of `s`, in order.
pub fn chars_of(s: &str) -> (r: Vec<char>)
    ensures
        r@ == s@,
{
    let mut r: Vec<char> = Vec::new();
    for c in it: s.chars()
        invariant
            r@ == it.seq().take(it.index() as int),
    {
        r.push(c);
    }
    r
}

/// `s[i..j]` is a word of `s`: a maximal run of non-whitespace characters.
pub open spec fn is_word_at(s: Seq<char>, i: int, j: int) -> bool {
    &&& 0 <= i < j <= s.len()
    &&& forall|k: int| i <= k < j ==> !is_ws(#[trigger] s[k])
    &&& (i == 0 || is_ws(s[i - 1]))
    &&& (j == s.len() || is_ws(s[j]))
}

/// `needle` occurs in `hay` as a contiguous run of characters.
pub open spec fn occurs_in(needle: Seq<char>, hay: Seq<char>) -> bool {
    exists|k: int| 0 <= k && k + needle.len() <= hay.len() && #[trigger] hay.subrange(k, k + needle.len()) == needle
}

/// Every whitespace-separated word of `filter` occurs in `title`.
pub open spec fn all_words_occur(filter: Seq<char>, title: Seq<char>) -> bool {
    forall|i: int, j: int| #[trigger] is_word_at(filter, i, j) ==> occurs_in(filter.subrange(i, j), title)
}

/// Whether `src[start..end]` occurs in `hay`.
fn occurs_range(hay: &Vec<char>, src: &Vec<char>, start: usize, end: usize) -> (r: bool)
    requires
        start <= end <= src@.len(),
    ensures
        r == occurs_in(src@.subrange(start as int, end as int), hay@),
{
    let ghost needle = src@.subrange(start as int, end as int);
    let w = end - start;
    if w > hay.len() {
        assert forall|k: int| 0 <= k && k + needle.len() <= hay@.len() implies #[trigger] hay@.subrange(k, k + needle.len()) != needle by {}
        return false;
    }
    if w == 0 {
        assert(hay@.subrange(0int, 0int + needle.len()) =~= needle);
        return true;
    }
    let last = hay.len() - w;
    let mut k: usize = 0;
    while k <= last
        invariant
            w == end - start,
            w > 0,
            start <= end <= src@.len(),
            last + w == hay@.len(),
            hay@.len() <= usize::MAX,
            needle == src@.subrange(start as int, end as int),
            forall|p: int| 0 <= p < k ==> #[trigger] hay@.subrange(p, p + needle.len()) != needle,
        decreases last + 1 - k,
    {
        let mut m: usize = 0;
        while m < w && hay[k + m] == src[start + m]
            invariant
                w == end - start,
                start <= end <= src@.len(),
                k <= last,
                last + w == hay@.len(),
                k + w <= hay@.len(),
                hay@.len() <= usize::MAX,
                needle == src@.subrange(start as int, end as int),
                m <= w,
                forall|q: int| 0 <= q < m ==> #[trigger] hay@[k + q] == src@[start + q],
            decreases w - m,
        {
            m = m + 1;
        }
        if m == w {
            assert forall|q: int| 0 <= q < w implies #[trigger] hay@.subrange(k as int, k + w)[q] == needle[q] by {
                assert(hay@[k + q] == src@[start + q]);
            }
            assert(hay@.subrange(k as int, k + needle.len()) =~= needle);
            return true;
        }
        assert(hay@.subrange(k as int, k + needle.len())[m as int] != needle[m as int]);
        k = k + 1;
    }
    assert forall|p: int| 0 <= p && p + needle.len() <= hay@.len() implies #[trigger] hay@.subrange(p, p + needle.len()) != needle by {
        assert(p < k);
    }
    false
}

/// Whether every whitespace-separated word of `filter` occurs in `title`.
pub fn all_words_in(filter: &str, title: &str) -> (r: bool)
    ensures
        r == all_words_occur(filter@, title@),
{
    let f = chars_of(filter);
    let t = chars_of(title);
    let n = f.len();
    let mut i: usize = 0;
    while i < n
        invariant
            n == f@.len(),
            f@ == filter@,
            t@ == title@,
            i <= n,
            i == 0 || i == n || is_ws(f@[i - 1]) || is_ws(f@[i as int]),
            forall|a: int, b: int| #[trigger] is_word_at(f@, a, b) && a < i ==> occurs_in(f@.subrange(a, b), t@),
        decreases n - i,
    {
        if is_whitespace(f[i]) {
            i = i + 1;
        } else {
            let start = i;
            let mut j: usize = i;
            while j < n && !is_whitespace(f[j])
                invariant
                    n == f@.len(),
                    start <= j <= n,
                    forall|k: int| start <= k < j ==> !is_ws(#[trigger] f@[k]),
                decreases n - j,
            {
                j = j + 1;
            }
            assert(is_word_at(f@, start as int, j as int));
            if !occurs_range(&t, &f, start, j) {
                return false;
            }
            assert forall|a: int, b: int| #[trigger] is_word_at(f@, a, b) && a < j implies occurs_in(f@.subrange(a, b), t@) by {
                if a >= start {
                    if a > start {
                        assert(!is_ws(f@[a - 1]));
                    }
                    if b < j {
                        assert(!is_ws(f@[b]));
                    }
                    if b > j {
                        assert(!is_ws(f@[j as int]));
                    }
                }
            }
            i = j;
        }
    }
    true
}

/// `s` without its leading whitespace.
pub open spec fn trim_start_ws(s: Seq<char>) -> Seq<char>
    decreases s.len(),
{
    if s.len() > 0 && is_ws(s[0]) {
        trim_start_ws(s.drop_first())
    } else {
        s
    }
}

/// `s` without its trailing whitespace.
pub open spec fn trim_end_ws(s: Seq<char>) -> Seq<char>
    decreases s.len(),
{
    if s.len() > 0 && is_ws(s.last()) {
        trim_end_ws(s.drop_last())
    } else {
        s
    }
}

/// `s` without leading and trailing whitespace.
pub open spec fn trimmed(s: Seq<char>) -> Seq<char> {
    trim_end_ws(trim_start_ws(s))
}

/// `s` with leading and trailing whitespace removed.
pub fn trim(s: &str) -> (r: String)
    ensures
        r@ == trimmed(s@),
{
    let c = chars_of(s);
    let n = c.len();
    let mut lo: usize = 0;
    assert(s@.subrange(0, n as int) =~= s@);
    while lo < n && is_whitespace(c[lo])
        invariant
            c@ == s@,
            n == c@.len(),
            lo <= n,
            trim_start_ws(s@) == trim_start_ws(s@.subrange(lo as int, n as int)),
        decreases n - lo,
    {
        assert(s@.subrange(lo as int, n as int).drop_first() =~= s@.subrange(lo + 1, n as int));
        lo = lo + 1;
    }
    let mut hi: usize = n;
    while hi > lo && is_whitespace(c[hi - 1])
        invariant
            c@ == s@,
            n == c@.len(),
            lo <= hi <= n,
            trim_start_ws(s@) == s@.subrange(lo as int, n as int),
            trim_end_ws(s@.subrange(lo as int, n as int)) == trim_end_ws(s@.subrange(lo as int, hi as int)),
        decreases hi - lo,
    {
        assert(s@.subrange(lo as int, hi as int).drop_last() =~= s@.subrange(lo as int, hi - 1));
        hi = hi - 1;
    }
    s.substring_char(lo, hi).to_owned()
}

} // verus!
