//! Classification of the lines of one file as blank, comment or code.
use vstd::prelude::*;

use crate::config::{Info, InfoView};
use crate::detail::Detail;
use crate::text::{
    byte_len, chars_of, ends_with, lemma_line_end, line_end, lines_of, same_chars, slice_ends_with,
    slice_starts_with, starts_with, trim, trim_bounds, utf8_width,
};

verus! {

/// What one line is counted as.
#[derive(Copy, Clone, Debug, PartialEq, Eq, Structural)]
pub enum LineKind {
    Blank,
    Comment,
    Code,
}

/// The block comment that is open after a line: its start and end markers.
pub type OpenBlock = Option<(Seq<char>, Seq<char>)>;

/// How many lines were counted as blank, comment and code.
pub struct Tally {
    pub blank: nat,
    pub comment: nat,
    pub code: nat,
}

pub open spec fn tally_zero() -> Tally {
    Tally { blank: 0, comment: 0, code: 0 }
}

/// `t` with one more line of the given kind.
pub open spec fn tally_one(k: LineKind, t: Tally) -> Tally {
    match k {
        LineKind::Blank => Tally { blank: t.blank + 1, ..t },
        LineKind::Comment => Tally { comment: t.comment + 1, ..t },
        LineKind::Code => Tally { code: t.code + 1, ..t },
    }
}

/// The block-comment rules, for the trimmed, non-empty line `t`, trying the
/// pairs `pairs[i..]` in order. Where a block is open, only its own pair is
/// tried. A start marker of the open block closes it; a line inside a block
/// is comment and closes the block when it ends with the end marker; a line
/// that starts a block is comment and closes it at once when it also ends
/// with the end marker and is at least as long, in bytes, as both markers.
pub open spec fn block_scan(
    t: Seq<char>,
    pairs: Seq<(Seq<char>, Seq<char>)>,
    i: int,
    open: OpenBlock,
) -> (LineKind, OpenBlock)
    decreases pairs.len() - i,
{
    if i < 0 || i >= pairs.len() {
        (LineKind::Code, open)
    } else {
        let (s, e) = pairs[i];
        if open is Some && open->0 != pairs[i] {
            block_scan(t, pairs, i + 1, open)
        } else if starts_with(t, s) {
            if open is Some {
                (LineKind::Comment, None)
            } else if ends_with(t, e) && byte_len(t) >= byte_len(s) + byte_len(e) {
                (LineKind::Comment, None)
            } else {
                (LineKind::Comment, Some(pairs[i]))
            }
        } else if open is Some {
            (LineKind::Comment, if ends_with(t, e) { None } else { open })
        } else {
            block_scan(t, pairs, i + 1, open)
        }
    }
}

/// The kind of `line` and the block left open after it, given the block
/// open before it. Blank lines come first, even inside a block; then the
/// single-line prefixes, which are tried inside an open block too (such a
/// line is comment and leaves the block open, even where it ends with the
/// end marker); then the block-comment rules; all else is code.
pub open spec fn step(line: Seq<char>, info: InfoView, open: OpenBlock) -> (LineKind, OpenBlock) {
    let t = trim(line);
    if t.len() == 0 {
        (LineKind::Blank, open)
    } else if exists|k: int| 0 <= k < info.single.len() && starts_with(t, #[trigger] info.single[k]) {
        (LineKind::Comment, open)
    } else {
        block_scan(t, info.multi, 0, open)
    }
}

/// The tally of `lines`, read in order from the open block `open`.
pub open spec fn count_from(lines: Seq<Seq<char>>, info: InfoView, open: OpenBlock) -> Tally
    decreases lines.len(),
{
    if lines.len() == 0 {
        tally_zero()
    } else {
        let (k, next) = step(lines[0], info, open);
        tally_one(k, count_from(lines.drop_first(), info, next))
    }
}

/// The tally of a whole text under a language profile.
pub open spec fn classify(content: Seq<char>, info: InfoView) -> Tally {
    count_from(lines_of(content), info, None)
}

/// Every line is counted once.
pub proof fn lemma_count_total(lines: Seq<Seq<char>>, info: InfoView, open: OpenBlock)
    ensures
        ({
            let t = count_from(lines, info, open);
            t.blank + t.comment + t.code == lines.len()
        }),
    decreases lines.len(),
{
    if lines.len() > 0 {
        let (k, next) = step(lines[0], info, open);
        lemma_count_total(lines.drop_first(), info, next);
    }
}

/// For every text and profile, blank, comment and code lines add up to the
/// number of lines of the text.
pub proof fn lemma_lines_partitioned(content: Seq<char>, info: InfoView)
    ensures
        classify(content, info).blank + classify(content, info).comment + classify(content, info).code
            == lines_of(content).len(),
{
    lemma_count_total(lines_of(content), info, None);
}

pub open spec fn open_view(pairs: Seq<(Seq<char>, Seq<char>)>, open: Option<usize>) -> OpenBlock {
    match open {
        None => None,
        Some(k) => Some(pairs[k as int]),
    }
}

pub open spec fn pairs_chars(v: Seq<(Vec<char>, Vec<char>)>) -> Seq<(Seq<char>, Seq<char>)> {
    v.map_values(|p: (Vec<char>, Vec<char>)| (p.0@, p.1@))
}

fn same_pair(p: &(Vec<char>, Vec<char>), q: &(Vec<char>, Vec<char>)) -> (r: bool)
    ensures
        r == ((p.0@, p.1@) == (q.0@, q.1@)),
{
    same_chars(&p.0, &q.0) && same_chars(&p.1, &q.1)
}

/// Byte length of `v[a..b]`, in a type wide enough for any vector.
fn byte_len_of(v: &Vec<char>, a: usize, b: usize) -> (r: u128)
    requires
        a <= b <= v.len(),
    ensures
        r == byte_len(v@.subrange(a as int, b as int)),
        r <= 4 * (b - a),
{
    let mut n: u128 = 0;
    let mut k: usize = a;
    while k < b
        invariant
            a <= k <= b <= v.len(),
            n == byte_len(v@.subrange(a as int, k as int)),
            n <= 4 * (k - a),
        decreases b - k,
    {
        assert(v@.subrange(a as int, k + 1).drop_last() =~= v@.subrange(a as int, k as int));
        n = n + utf8_width(v[k]) as u128;
        k = k + 1;
    }
    n
}

/// The block-comment rules of `block_scan` on the trimmed line `v[a..b]`.
fn scan_blocks(
    v: &Vec<char>,
    a: usize,
    b: usize,
    pairs: &Vec<(Vec<char>, Vec<char>)>,
    open: Option<usize>,
) -> (r: (LineKind, Option<usize>))
    requires
        a <= b <= v.len(),
        open is Some ==> open->0 < pairs.len(),
    ensures
        r.1 is Some ==> r.1->0 < pairs.len(),
        (r.0, open_view(pairs_chars(pairs@), r.1)) == block_scan(
            v@.subrange(a as int, b as int),
            pairs_chars(pairs@),
            0,
            open_view(pairs_chars(pairs@), open),
        ),
{
    let ghost t = v@.subrange(a as int, b as int);
    let ghost ps = pairs_chars(pairs@);
    let ghost st = open_view(ps, open);
    let mut i: usize = 0;
    while i < pairs.len()
        invariant
            i <= pairs.len(),
            a <= b <= v.len(),
            t == v@.subrange(a as int, b as int),
            ps == pairs_chars(pairs@),
            st == open_view(ps, open),
            open is Some ==> open->0 < pairs.len(),
            block_scan(t, ps, 0, st) == block_scan(t, ps, i as int, st),
        decreases pairs.len() - i,
    {
        let pair = &pairs[i];
        assert(ps[i as int] == (pair.0@, pair.1@));
        let mut other = false;
        match open {
            Some(k) => {
                assert(ps[k as int] == (pairs@[k as int].0@, pairs@[k as int].1@));
                other = !same_pair(&pairs[k], pair);
            },
            None => {},
        }
        if other {
            i = i + 1;
        } else if slice_starts_with(v, a, b, &pair.0) {
            if open.is_some() {
                return (LineKind::Comment, None);
            }
            if slice_ends_with(v, a, b, &pair.1) {
                let n = pair.0.len();
                let m = pair.1.len();
                let whole = byte_len_of(v, a, b);
                let sb = byte_len_of(&pair.0, 0, n);
                let eb = byte_len_of(&pair.1, 0, m);
                assert(pair.0@.subrange(0, n as int) =~= pair.0@);
                assert(pair.1@.subrange(0, m as int) =~= pair.1@);
                if whole >= sb + eb {
                    return (LineKind::Comment, None);
                }
            }
            return (LineKind::Comment, Some(i));
        } else if open.is_some() {
            if slice_ends_with(v, a, b, &pair.1) {
                return (LineKind::Comment, None);
            }
            return (LineKind::Comment, open);
        } else {
            i = i + 1;
        }
    }
    (LineKind::Code, open)
}


/// The rules of `step` on the line `v[a..b]`, before trimming.
fn classify_line(
    v: &Vec<char>,
    a: usize,
    b: usize,
    singles: &Vec<Vec<char>>,
    pairs: &Vec<(Vec<char>, Vec<char>)>,
    open: Option<usize>,
    Ghost(info): Ghost<InfoView>,
) -> (r: (LineKind, Option<usize>))
    requires
        a <= b <= v.len(),
        open is Some ==> open->0 < pairs.len(),
        singles@.map_values(|c: Vec<char>| c@) == info.single,
        pairs_chars(pairs@) == info.multi,
    ensures
        r.1 is Some ==> r.1->0 < pairs.len(),
        (r.0, open_view(info.multi, r.1)) == step(
            v@.subrange(a as int, b as int),
            info,
            open_view(info.multi, open),
        ),
{
    let (x, y) = trim_bounds(v, a, b);
    let ghost t = v@.subrange(x as int, y as int);
    if x == y {
        assert(t.len() == 0);
        return (LineKind::Blank, open);
    }
    let mut k: usize = 0;
    while k < singles.len()
        invariant
            k <= singles.len(),
            a <= x <= y <= b <= v.len(),
            t == v@.subrange(x as int, y as int),
            t == trim(v@.subrange(a as int, b as int)),
            t.len() > 0,
            open is Some ==> open->0 < pairs.len(),
            singles@.map_values(|c: Vec<char>| c@) == info.single,
            forall|j: int| 0 <= j < k ==> !starts_with(t, #[trigger] info.single[j]),
        decreases singles.len() - k,
    {
        assert(info.single[k as int] == singles@[k as int]@);
        if slice_starts_with(v, x, y, &singles[k]) {
            assert(starts_with(t, info.single[k as int]));
            return (LineKind::Comment, open);
        }
        k = k + 1;
    }
    scan_blocks(v, x, y, pairs, open)
}

/// The lines of `s[pos..]` are the one that ends at `e`, then those after it.
proof fn lemma_next_line(s: Seq<char>, pos: int, e: int)
    requires
        0 <= pos < s.len(),
        pos <= e <= s.len(),
        forall|k: int| pos <= k < e ==> #[trigger] s[k] != '\n',
        e < s.len() ==> s[e] == '\n',
    ensures
        e < s.len() ==> lines_of(s.subrange(pos, s.len() as int)) == seq![s.subrange(pos, e)]
            + lines_of(s.subrange(e + 1, s.len() as int)),
        e == s.len() ==> lines_of(s.subrange(pos, s.len() as int)) == seq![s.subrange(pos, e)],
{
    let r = s.subrange(pos, s.len() as int);
    lemma_line_end(r);
    let l = line_end(r);
    if l < e - pos {
        assert(r[l] == s[pos + l]);
    }
    if e - pos < l {
        assert(r[e - pos] == s[e]);
    }
    assert(l == e - pos);
    assert(r.subrange(0, l) =~= s.subrange(pos, e));
    if e < s.len() {
        assert(r.subrange(l + 1, r.len() as int) =~= s.subrange(e + 1, s.len() as int));
    }
}

proof fn lemma_tally_shift(k: LineKind, acc: Tally, rest: Tally)
    ensures
        ({
            let one = tally_one(k, tally_zero());
            let l = tally_one(k, rest);
            let r = Tally {
                blank: acc.blank + one.blank,
                comment: acc.comment + one.comment,
                code: acc.code + one.code,
            };
            &&& acc.blank + l.blank == r.blank + rest.blank
            &&& acc.comment + l.comment == r.comment + rest.comment
            &&& acc.code + l.code == r.code + rest.code
        }),
{
}

/// The detail of a file with the text `content` and the size `bytes`,
/// classified under `info`.
pub open spec fn detail_for(info: Info, content: Seq<char>, bytes: u64) -> Detail {
    let t = classify(content, info@);
    Detail {
        language: info.language,
        bytes,
        blank: t.blank as usize,
        comment: t.comment as usize,
        code: t.code as usize,
    }
}

/// Classifies the lines of `content` under the profile `info`, and pairs the
/// counts with the file's language and its size `bytes`.
pub fn calculate(content: &str, bytes: u64, info: &Info) -> (r: Detail)
    ensures
        r.language == info.language,
        r.bytes == bytes,
        r.blank == classify(content@, info@).blank,
        r.comment == classify(content@, info@).comment,
        r.code == classify(content@, info@).code,
        r.blank + r.comment + r.code == lines_of(content@).len(),
        r == detail_for(*info, content@, bytes),
{
    let v = chars_of(content);
    let n = v.len();
    let mut singles: Vec<Vec<char>> = Vec::new();
    let mut i: usize = 0;
    while i < info.single.len()
        invariant
            i <= info.single.len(),
            singles@.len() == i,
            forall|j: int| 0 <= j < i ==> #[trigger] singles@[j]@ == info.single@[j]@,
        decreases info.single.len() - i,
    {
        singles.push(chars_of(info.single[i]));
        i = i + 1;
    }
    assert(singles@.map_values(|c: Vec<char>| c@) =~= info@.single);
    let mut pairs: Vec<(Vec<char>, Vec<char>)> = Vec::new();
    let mut i: usize = 0;
    while i < info.multi.len()
        invariant
            i <= info.multi.len(),
            pairs@.len() == i,
            forall|j: int|
                0 <= j < i ==> #[trigger] pairs@[j].0@ == info.multi@[j].0@ && pairs@[j].1@
                    == info.multi@[j].1@,
        decreases info.multi.len() - i,
    {
        let (s, e) = info.multi[i];
        pairs.push((chars_of(s), chars_of(e)));
        i = i + 1;
    }
    assert(pairs_chars(pairs@) =~= info@.multi);
    let ghost all = lines_of(v@);
    let mut pos: usize = 0;
    let mut open: Option<usize> = None;
    let mut blank: usize = 0;
    let mut comment: usize = 0;
    let mut code: usize = 0;
    assert(v@.subrange(0, n as int) =~= v@);
    while pos < n
        invariant
            pos <= n == v.len(),
            v@ == content@,
            all == lines_of(v@),
            singles@.map_values(|c: Vec<char>| c@) == info@.single,
            pairs_chars(pairs@) == info@.multi,
            open is Some ==> open->0 < pairs.len(),
            blank + comment + code <= pos,
            ({
                let rest = count_from(
                    lines_of(v@.subrange(pos as int, n as int)),
                    info@,
                    open_view(info@.multi, open),
                );
                let whole = count_from(all, info@, None);
                &&& whole.blank == blank + rest.blank
                &&& whole.comment == comment + rest.comment
                &&& whole.code == code + rest.code
            }),
        decreases n - pos,
    {
        let mut e: usize = pos;
        while e < n && v[e] != '\n'
            invariant
                pos <= e <= n == v.len(),
                forall|k: int| pos <= k < e ==> #[trigger] v@[k] != '\n',
            decreases n - e,
        {
            e = e + 1;
        }
        proof {
            lemma_next_line(v@, pos as int, e as int);
        }
        let (kind, next) = classify_line(&v, pos, e, &singles, &pairs, open, Ghost(info@));
        let ghost later = if e < n { v@.subrange(e + 1, n as int) } else { Seq::<char>::empty() };
        proof {
            let ls = lines_of(v@.subrange(pos as int, n as int));
            assert(ls.drop_first() =~= lines_of(later)) by {
                if e == n {
                    assert(lines_of(later) =~= Seq::<Seq<char>>::empty());
                }
            }
            lemma_tally_shift(kind, Tally { blank: blank as nat, comment: comment as nat, code: code as nat },
                count_from(lines_of(later), info@, open_view(info@.multi, next)));
        }
        match kind {
            LineKind::Blank => blank = blank + 1,
            LineKind::Comment => comment = comment + 1,
            LineKind::Code => code = code + 1,
        }
        open = next;
        if e < n {
            pos = e + 1;
        } else {
            pos = n;
            assert(v@.subrange(n as int, n as int) =~= later);
        }
    }
    proof {
        assert(lines_of(v@.subrange(n as int, n as int)) =~= Seq::<Seq<char>>::empty());
        lemma_lines_partitioned(content@, info@);
    }
    Detail::new(info.language, bytes, blank, comment, code)
}

} // verus!
