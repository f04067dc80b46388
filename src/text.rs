//! Character-level helpers: whitespace, trimming, prefixes, suffixes,
//! UTF-8 lengths and the split of a text into lines.
use vstd::prelude::*;

verus! {

/// The characters that `char::is_whitespace` accepts (Unicode `White_Space`).
pub open spec fn is_space(c: char) -> bool {
    let u = c as u32;
    ||| 0x09 <= u <= 0x0d
    ||| u == 0x20
    ||| u == 0x85
    ||| u == 0xa0
    ||| u == 0x1680
    ||| 0x2000 <= u <= 0x200a
    ||| u == 0x2028
    ||| u == 0x2029
    ||| u == 0x202f
    ||| u == 0x205f
    ||| u == 0x3000
}

/// Index of the first character of `s` that is not whitespace (or `s.len()`).
pub open spec fn first_non_space(s: Seq<char>) -> int
    decreases s.len(),
{
    if s.len() == 0 || !is_space(s[0]) {
        0
    } else {
        1 + first_non_space(s.drop_first())
    }
}

/// One past the last character of `s` that is not whitespace (or `0`).
pub open spec fn last_non_space(s: Seq<char>) -> int
    decreases s.len(),
{
    if s.len() == 0 || !is_space(s.last()) {
        s.len() as int
    } else {
        last_non_space(s.drop_last())
    }
}

/// `s` without its leading and trailing whitespace, as `str::trim` gives it.
pub open spec fn trim(s: Seq<char>) -> Seq<char> {
    let a = first_non_space(s);
    if a >= s.len() {
        Seq::empty()
    } else {
        s.subrange(a, last_non_space(s))
    }
}

pub open spec fn starts_with(s: Seq<char>, p: Seq<char>) -> bool {
    p.len() <= s.len() && s.subrange(0, p.len() as int) == p
}

pub open spec fn ends_with(s: Seq<char>, p: Seq<char>) -> bool {
    p.len() <= s.len() && s.subrange(s.len() - p.len(), s.len() as int) == p
}

/// Number of bytes that the UTF-8 encoding of `c` takes.
pub open spec fn char_bytes(c: char) -> nat {
    let u = c as u32;
    if u < 0x80 {
        1
    } else if u < 0x800 {
        2
    } else if u < 0x10000 {
        3
    } else {
        4
    }
}

/// Number of bytes that the UTF-8 encoding of `s` takes (`str::len`).
pub open spec fn byte_len(s: Seq<char>) -> nat
    decreases s.len(),
{
    if s.len() == 0 {
        0
    } else {
        byte_len(s.drop_last()) + char_bytes(s.last())
    }
}

/// Index of the first line feed in `s`, or `s.len()` when there is none.
pub open spec fn line_end(s: Seq<char>) -> int
    decreases s.len(),
{
    if s.len() == 0 || s[0] == '\n' {
        0
    } else {
        1 + line_end(s.drop_first())
    }
}

/// The lines of `s` as `str::lines` yields them, before trimming: the
/// pieces between line feeds, where a final line feed opens no empty line.
/// (A carriage return before the line feed stays in the piece; it is
/// whitespace and every line is trimmed before it is looked at.)
pub open spec fn lines_of(s: Seq<char>) -> Seq<Seq<char>>
    decreases s.len(),
{
    if s.len() == 0 {
        Seq::empty()
    } else {
        let e = line_end(s);
        if e < 0 || e >= s.len() {
            seq![s]
        } else {
            seq![s.subrange(0, e)] + lines_of(s.subrange(e + 1, s.len() as int))
        }
    }
}

pub fn is_whitespace(c: char) -> (r: bool)
    ensures
        r == is_space(c),
{
    let u = c as u32;
    (0x09 <= u && u <= 0x0d) || u == 0x20 || u == 0x85 || u == 0xa0 || u == 0x1680 || (0x2000
        <= u && u <= 0x200a) || u == 0x2028 || u == 0x2029 || u == 0x202f || u == 0x205f || u
        == 0x3000
}

/// The characters of `s`, in order.
pub fn chars_of(s: &str) -> (r: Vec<char>)
    ensures
        r@ == s@,
{
    let mut v: Vec<char> = Vec::new();
    for c in it: s.chars()
        invariant
            v@ == it.seq().take(it.index() as int),
            it.seq() == s@,
    {
        v.push(c);
    }
    v
}


pub proof fn lemma_first_non_space(s: Seq<char>)
    ensures
        0 <= first_non_space(s) <= s.len(),
        forall|k: int| 0 <= k < first_non_space(s) ==> is_space(#[trigger] s[k]),
        first_non_space(s) < s.len() ==> !is_space(s[first_non_space(s)]),
    decreases s.len(),
{
    if s.len() > 0 && is_space(s[0]) {
        lemma_first_non_space(s.drop_first());
        assert forall|k: int| 0 <= k < first_non_space(s) implies is_space(#[trigger] s[k]) by {
            if k > 0 {
                assert(s[k] == s.drop_first()[k - 1]);
            }
        }
    }
}

pub proof fn lemma_last_non_space(s: Seq<char>)
    ensures
        0 <= last_non_space(s) <= s.len(),
        forall|k: int| last_non_space(s) <= k < s.len() ==> is_space(#[trigger] s[k]),
        last_non_space(s) > 0 ==> !is_space(s[last_non_space(s) - 1]),
    decreases s.len(),
{
    if s.len() > 0 && is_space(s.last()) {
        lemma_last_non_space(s.drop_last());
        assert forall|k: int| last_non_space(s) <= k < s.len() implies is_space(#[trigger] s[k]) by {
            if k < s.len() - 1 {
                assert(s[k] == s.drop_last()[k]);
            }
        }
    }
}

pub proof fn lemma_line_end(s: Seq<char>)
    ensures
        0 <= line_end(s) <= s.len(),
        forall|k: int| 0 <= k < line_end(s) ==> #[trigger] s[k] != '\n',
        line_end(s) < s.len() ==> s[line_end(s)] == '\n',
    decreases s.len(),
{
    if s.len() > 0 && s[0] != '\n' {
        lemma_line_end(s.drop_first());
        assert forall|k: int| 0 <= k < line_end(s) implies #[trigger] s[k] != '\n' by {
            if k > 0 {
                assert(s[k] == s.drop_first()[k - 1]);
            }
        }
    }
}

/// The bounds, inside `v[a..b]`, of that piece with its surrounding whitespace removed.
pub fn trim_bounds(v: &Vec<char>, a: usize, b: usize) -> (r: (usize, usize))
    requires
        a <= b <= v.len(),
    ensures
        a <= r.0 <= r.1 <= b,
        v@.subrange(r.0 as int, r.1 as int) == trim(v@.subrange(a as int, b as int)),
{
    let ghost s = v@.subrange(a as int, b as int);
    let mut i: usize = a;
    while i < b && is_whitespace(v[i])
        invariant
            a <= i <= b <= v.len(),
            s == v@.subrange(a as int, b as int),
            forall|k: int| a <= k < i ==> is_space(#[trigger] v@[k]),
        decreases b - i,
    {
        i = i + 1;
    }
    proof {
        lemma_first_non_space(s);
        let f = first_non_space(s);
        if f < i - a {
            assert(s[f] == v@[a + f]);
        }
        if i - a < f {
            assert(s[i - a] == v@[i as int]);
        }
        assert(f == i - a);
    }
    if i == b {
        assert(trim(s) =~= v@.subrange(b as int, b as int));
        return (b, b);
    }
    let mut j: usize = b;
    while j > i && is_whitespace(v[j - 1])
        invariant
            a <= i < j <= b <= v.len() || (a <= i <= j <= b <= v.len() && j == i),
            i < b,
            !is_space(v@[i as int]),
            forall|k: int| j <= k < b ==> is_space(#[trigger] v@[k]),
        decreases j - i,
    {
        j = j - 1;
    }
    proof {
        lemma_last_non_space(s);
        let l = last_non_space(s);
        if j > i {
            assert(!is_space(v@[j - 1]));
        } else {
            assert(false);
        }
        if l < j - a {
            assert(s[j - a - 1] == v@[j - 1]);
        }
        if j - a < l {
            assert(s[l - 1] == v@[a + l - 1]);
        }
        assert(l == j - a);
        assert(trim(s) =~= v@.subrange(i as int, j as int));
    }
    (i, j)
}

/// Whether `v[a..b]` begins with the characters of `p`.
pub fn slice_starts_with(v: &Vec<char>, a: usize, b: usize, p: &Vec<char>) -> (r: bool)
    requires
        a <= b <= v.len(),
    ensures
        r == starts_with(v@.subrange(a as int, b as int), p@),
{
    let n = p.len();
    if n > b - a {
        return false;
    }
    let mut k: usize = 0;
    while k < n
        invariant
            k <= n == p.len() <= b - a,
            a <= b <= v.len(),
            forall|t: int| 0 <= t < k ==> v@[a + t] == p@[t],
        decreases n - k,
    {
        if v[a + k] != p[k] {
            assert(v@.subrange(a as int, b as int)[k as int] != p@[k as int]);
            return false;
        }
        k = k + 1;
    }
    assert(v@.subrange(a as int, b as int).subrange(0, n as int) =~= p@);
    true
}

/// Whether `v[a..b]` ends with the characters of `p`.
pub fn slice_ends_with(v: &Vec<char>, a: usize, b: usize, p: &Vec<char>) -> (r: bool)
    requires
        a <= b <= v.len(),
    ensures
        r == ends_with(v@.subrange(a as int, b as int), p@),
{
    let n = p.len();
    if n > b - a {
        return false;
    }
    let base = b - n;
    let mut k: usize = 0;
    while k < n
        invariant
            k <= n == p.len() <= b - a,
            base == b - n,
            a <= b <= v.len(),
            forall|t: int| 0 <= t < k ==> v@[base + t] == p@[t],
        decreases n - k,
    {
        if v[base + k] != p[k] {
            assert(v@.subrange(a as int, b as int)[(b - a - n) + k] != p@[k as int]);
            return false;
        }
        k = k + 1;
    }
    assert(v@.subrange(a as int, b as int).subrange((b - a - n) as int, (b - a) as int) =~= p@);
    true
}

pub fn utf8_width(c: char) -> (r: usize)
    ensures
        r == char_bytes(c),
{
    let u = c as u32;
    if u < 0x80 {
        1
    } else if u < 0x800 {
        2
    } else if u < 0x10000 {
        3
    } else {
        4
    }
}

/// Whether two character vectors are equal.
pub fn same_chars(a: &Vec<char>, b: &Vec<char>) -> (r: bool)
    ensures
        r == (a@ == b@),
{
    if a.len() != b.len() {
        return false;
    }
    let mut k: usize = 0;
    while k < a.len()
        invariant
            k <= a.len() == b.len(),
            forall|t: int| 0 <= t < k ==> a@[t] == b@[t],
        decreases a.len() - k,
    {
        if a[k] != b[k] {
            return false;
        }
        k = k + 1;
    }
    assert(a@ =~= b@);
    true
}

/// Whether two names hold the same characters.
pub fn same_text(a: &str, b: &str) -> (r: bool)
    ensures
        r == (a@ == b@),
{
    same_chars(&chars_of(a), &chars_of(b))
}

} // verus!
