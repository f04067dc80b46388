//! The directory walk's decisions: which files are ignored, and which
//! entries of a directory are handed on or descended into.
use vstd::prelude::*;

use crate::text::{chars_of, lemma_line_end, line_end, lines_of, same_chars};

verus! {

/// Index of the first `/` in `s`, or `s.len()` when there is none.
pub open spec fn sep_end(s: Seq<char>) -> int
    decreases s.len(),
{
    if s.len() == 0 || s[0] == '/' {
        0
    } else {
        1 + sep_end(s.drop_first())
    }
}

/// Whether a piece between separators names a component: `a//b` and `a/./b`
/// both have the components `a` and `b`.
pub open spec fn is_component(piece: Seq<char>) -> bool {
    piece.len() > 0 && piece != seq!['.']
}

/// The components of the path `s`, in order.
pub open spec fn components(s: Seq<char>) -> Seq<Seq<char>>
    decreases s.len(),
{
    let e = sep_end(s);
    let head = s.subrange(0, e);
    let rest = if 0 <= e < s.len() {
        components(s.subrange(e + 1, s.len() as int))
    } else {
        Seq::empty()
    };
    if 0 <= e <= s.len() && is_component(head) {
        seq![head] + rest
    } else {
        rest
    }
}

pub open spec fn is_absolute(s: Seq<char>) -> bool {
    s.len() > 0 && s[0] == '/'
}

/// Whether the path `p` is `base` or lies beneath it: both absolute or both
/// relative, and the components of `base` begin those of `p`. A path is not
/// beneath a sibling whose name it extends: `/a/bc` is not under `/a/b`.
pub open spec fn is_under(p: Seq<char>, base: Seq<char>) -> bool {
    &&& is_absolute(p) == is_absolute(base)
    &&& components(base).len() <= components(p).len()
    &&& components(p).subrange(0, components(base).len() as int) == components(base)
}

/// Whether `p` lies under none of the paths of `list`.
pub open spec fn under_none(list: Seq<Seq<char>>, p: Seq<char>) -> bool {
    forall|i: int| 0 <= i < list.len() ==> !is_under(p, #[trigger] list[i])
}

/// Whether `p` lies under none of the paths of `ignore`, where there is a list.
pub open spec fn admitted(ignore: Option<Seq<Seq<char>>>, p: Seq<char>) -> bool {
    match ignore {
        None => true,
        Some(list) => under_none(list, p),
    }
}

proof fn lemma_sep_end(s: Seq<char>)
    ensures
        0 <= sep_end(s) <= s.len(),
        forall|k: int| 0 <= k < sep_end(s) ==> #[trigger] s[k] != '/',
        sep_end(s) < s.len() ==> s[sep_end(s)] == '/',
    decreases s.len(),
{
    if s.len() > 0 && s[0] != '/' {
        lemma_sep_end(s.drop_first());
        assert forall|k: int| 0 <= k < sep_end(s) implies #[trigger] s[k] != '/' by {
            if k > 0 {
                assert(s[k] == s.drop_first()[k - 1]);
            }
        }
    }
}

/// The components of the path `path`.
pub fn path_components(path: &str) -> (r: Vec<Vec<char>>)
    ensures
        r@.map_values(|c: Vec<char>| c@) == components(path@),
{
    let v = chars_of(path);
    let n = v.len();
    let mut out: Vec<Vec<char>> = Vec::new();
    let mut pos: usize = 0;
    let mut more = true;
    assert(v@.subrange(0, n as int) =~= v@);
    while more
        invariant
            pos <= n == v.len(),
            v@ == path@,
            components(v@) == out@.map_values(|c: Vec<char>| c@) + if more {
                components(v@.subrange(pos as int, n as int))
            } else {
                Seq::empty()
            },
        decreases
                if more {
                    n + 1 - pos
                } else {
                    0
                },
    {
        let mut e: usize = pos;
        while e < n && v[e] != '/'
            invariant
                pos <= e <= n == v.len(),
                forall|k: int| pos <= k < e ==> #[trigger] v@[k] != '/',
            decreases n - e,
        {
            e = e + 1;
        }
        let ghost s = v@.subrange(pos as int, n as int);
        proof {
            lemma_sep_end(s);
            let l = sep_end(s);
            if l < e - pos {
                assert(s[l] == v@[pos + l]);
            }
            if e - pos < l {
                assert(s[e - pos] == v@[e as int]);
            }
            assert(l == e - pos);
            assert(s.subrange(0, l) =~= v@.subrange(pos as int, e as int));
            if e < n {
                assert(s.subrange(l + 1, s.len() as int) =~= v@.subrange(e + 1, n as int));
            }
        }
        let mut piece: Vec<char> = Vec::new();
        let mut k: usize = pos;
        while k < e
            invariant
                pos <= k <= e <= n == v.len(),
                piece@ == v@.subrange(pos as int, k as int),
            decreases e - k,
        {
            piece.push(v[k]);
            k = k + 1;
        }
        let ghost before = out@.map_values(|c: Vec<char>| c@);
        let keep = piece.len() > 0 && !(piece.len() == 1 && piece[0] == '.');
        assert(keep == is_component(piece@)) by {
            if piece@.len() == 1 && piece@ == seq!['.'] {
                assert(piece@[0] == '.');
            }
            if piece@.len() == 1 && piece@[0] == '.' {
                assert(piece@ =~= seq!['.']);
            }
        }
        if keep {
            out.push(piece);
            assert(out@.map_values(|c: Vec<char>| c@) =~= before.push(v@.subrange(pos as int, e as int)));
        }
        if e < n {
            pos = e + 1;
        } else {
            more = false;
        }
        assert(components(v@) =~= out@.map_values(|c: Vec<char>| c@) + if more {
            components(v@.subrange(pos as int, n as int))
        } else {
            Seq::empty()
        });
    }
    assert(components(v@) =~= out@.map_values(|c: Vec<char>| c@));
    out
}


/// What a directory entry is.
#[derive(Copy, Clone, Debug, PartialEq, Eq, Structural)]
pub enum EntryKind {
    File,
    Dir,
    Other,
}

/// The files among `entries` that are handed on, in order: the regular
/// files that lie under no ignored path.
pub open spec fn walk_files(
    ignore: Option<Seq<Seq<char>>>,
    entries: Seq<(Seq<char>, EntryKind)>,
) -> Seq<Seq<char>>
    decreases entries.len(),
{
    if entries.len() == 0 {
        Seq::empty()
    } else {
        let rest = walk_files(ignore, entries.drop_last());
        let (p, k) = entries.last();
        if k == EntryKind::File && admitted(ignore, p) {
            rest.push(p)
        } else {
            rest
        }
    }
}

/// The directories among `entries`, in order: each is walked in turn.
pub open spec fn walk_dirs(entries: Seq<(Seq<char>, EntryKind)>) -> Seq<Seq<char>>
    decreases entries.len(),
{
    if entries.len() == 0 {
        Seq::empty()
    } else {
        let rest = walk_dirs(entries.drop_last());
        let (p, k) = entries.last();
        if k == EntryKind::Dir {
            rest.push(p)
        } else {
            rest
        }
    }
}

pub open spec fn entries_view(entries: Seq<(String, EntryKind)>) -> Seq<(Seq<char>, EntryKind)> {
    entries.map_values(|e: (String, EntryKind)| (e.0@, e.1))
}

/// Where a file lies under an ignored path, the walk never hands it on,
/// whatever the directory listing it appears in.
pub proof fn lemma_ignored_never_handed_on(
    list: Seq<Seq<char>>,
    entries: Seq<(Seq<char>, EntryKind)>,
    p: Seq<char>,
    i: int,
)
    requires
        0 <= i < list.len(),
        is_under(p, list[i]),
    ensures
        !walk_files(Some(list), entries).contains(p),
    decreases entries.len(),
{
    if entries.len() > 0 {
        lemma_ignored_never_handed_on(list, entries.drop_last(), p, i);
        let rest = walk_files(Some(list), entries.drop_last());
        let q = entries.last().0;
        if entries.last().1 == EntryKind::File && admitted(Some(list), q) {
            assert(!is_under(q, list[i]));
            assert(q != p);
            assert forall|j: int| 0 <= j < rest.push(q).len() implies rest.push(q)[j] != p by {
                if j < rest.len() {
                    assert(rest.push(q)[j] == rest[j]);
                }
            }
        }
    }
}

/// The walker of a directory tree, with the optional list of paths whose
/// files are left out.
pub struct Explorer {
    pub ignore_list: Option<Vec<String>>,
}

impl Explorer {
    pub open spec fn ignore_view(&self) -> Option<Seq<Seq<char>>> {
        match self.ignore_list {
            None => None,
            Some(v) => Some(v@.map_values(|s: String| s@)),
        }
    }

    pub fn new(ignore_list: Option<Vec<String>>) -> (r: Self)
        ensures
            r.ignore_list == ignore_list,
    {
        Explorer { ignore_list }
    }

    /// Whether `filename` lies under none of the ignored paths.
    pub fn is_not_ignore_file(&self, filename: &str) -> (r: bool)
        ensures
            r == admitted(self.ignore_view(), filename@),
    {
        match &self.ignore_list {
            None => true,
            Some(list) => {
                let ghost lv = list@.map_values(|s: String| s@);
                let mut i: usize = 0;
                assert(self.ignore_view() == Some(lv));
                while i < list.len()
                    invariant
                        i <= list.len(),
                        lv == list@.map_values(|s: String| s@),
                        self.ignore_view() == Some(lv),
                        forall|j: int| 0 <= j < i ==> !is_under(filename@, #[trigger] lv[j]),
                        lv.len() == list.len(),
                    decreases list.len() - i,
                {
                    if is_under_path(filename, list[i].as_str()) {
                        assert(is_under(filename@, lv[i as int]));
                        return false;
                    }
                    i = i + 1;
                }
                true
            },
        }
    }

    /// Of the entries of one directory, the files to hand on and the
    /// directories to walk next, each in the order of `entries`.
    pub fn walk_directory(&self, entries: &Vec<(String, EntryKind)>) -> (r: (Vec<String>, Vec<String>))
        ensures
            r.0@.map_values(|s: String| s@) == walk_files(self.ignore_view(), entries_view(entries@)),
            r.1@.map_values(|s: String| s@) == walk_dirs(entries_view(entries@)),
    {
        let ghost ev = entries_view(entries@);
        let mut files: Vec<String> = Vec::new();
        let mut dirs: Vec<String> = Vec::new();
        let mut i: usize = 0;
        while i < entries.len()
            invariant
                i <= entries.len(),
                ev == entries_view(entries@),
                files@.map_values(|s: String| s@) == walk_files(self.ignore_view(), ev.take(i as int)),
                dirs@.map_values(|s: String| s@) == walk_dirs(ev.take(i as int)),
            decreases entries.len() - i,
        {
            let ghost f0 = files@.map_values(|s: String| s@);
            let ghost d0 = dirs@.map_values(|s: String| s@);
            assert(ev.take(i + 1).drop_last() =~= ev.take(i as int));
            assert(ev.take(i + 1).last() == (entries@[i as int].0@, entries@[i as int].1));
            let (path, kind) = &entries[i];
            match kind {
                EntryKind::File => {
                    if self.is_not_ignore_file(path.as_str()) {
                        files.push(path.clone());
                        assert(files@.map_values(|s: String| s@) =~= f0.push(path@));
                    }
                },
                EntryKind::Dir => {
                    dirs.push(path.clone());
                    assert(dirs@.map_values(|s: String| s@) =~= d0.push(path@));
                },
                EntryKind::Other => {},
            }
            i = i + 1;
        }
        assert(ev.take(i as int) =~= ev);
        (files, dirs)
    }
}

/// Whether the path `p` is `base` or lies beneath it.
pub fn is_under_path(p: &str, base: &str) -> (r: bool)
    ensures
        r == is_under(p@, base@),
{
    let pv = chars_of(p);
    let bv = chars_of(base);
    let pa = pv.len() > 0 && pv[0] == '/';
    let ba = bv.len() > 0 && bv[0] == '/';
    assert(pa == is_absolute(p@) && ba == is_absolute(base@));
    if pa != ba {
        return false;
    }
    let pc = path_components(p);
    let bc = path_components(base);
    let ghost pcv = pc@.map_values(|c: Vec<char>| c@);
    let ghost bcv = bc@.map_values(|c: Vec<char>| c@);
    assert(pcv.len() == pc.len() && bcv.len() == bc.len());
    if bc.len() > pc.len() {
        return false;
    }
    let mut i: usize = 0;
    while i < bc.len()
        invariant
            i <= bc.len() <= pc.len(),
            pcv == pc@.map_values(|c: Vec<char>| c@),
            bcv == bc@.map_values(|c: Vec<char>| c@),
            pcv == components(p@),
            bcv == components(base@),
            is_absolute(p@) == is_absolute(base@),
            forall|j: int| 0 <= j < i ==> pcv[j] == bcv[j],
        decreases bc.len() - i,
    {
        assert(pcv[i as int] == pc@[i as int]@ && bcv[i as int] == bc@[i as int]@);
        if !same_chars(&pc[i], &bc[i]) {
            assert(pcv.subrange(0, bcv.len() as int)[i as int] != bcv[i as int]);
            return false;
        }
        i = i + 1;
    }
    assert(pcv.subrange(0, bcv.len() as int) =~= bcv);
    true
}


/// A line of the ignore file without the carriage return that may end it.
pub open spec fn strip_cr(line: Seq<char>) -> Seq<char> {
    if line.len() > 0 && line.last() == '\r' {
        line.drop_last()
    } else {
        line
    }
}

/// The paths that an ignore file lists, one per line, as written; they are
/// made absolute before use, and those that name nothing are dropped then.
pub fn ignore_paths(content: &str) -> (r: Vec<String>)
    ensures
        r@.map_values(|s: String| s@) == lines_of(content@).map_values(|l: Seq<char>| strip_cr(l)),
{
    let v = chars_of(content);
    let n = v.len();
    let mut out: Vec<String> = Vec::new();
    let mut pos: usize = 0;
    assert(v@.subrange(0, n as int) =~= v@);
    while pos < n
        invariant
            pos <= n == v.len(),
            v@ == content@,
            lines_of(v@).map_values(|l: Seq<char>| strip_cr(l)) == out@.map_values(|s: String| s@)
                + lines_of(v@.subrange(pos as int, n as int)).map_values(|l: Seq<char>| strip_cr(l)),
        decreases n - pos,
    {
        let mut e: usize = pos;
        while e < n && v[e] != '\n'
            invariant
                pos <= e <= n == v.len(),
                forall|k: int| pos <= k < e ==> #[trigger] v@[k] != '\n',
            decreases n - e,
        {
            e = e + 1;
        }
        let ghost s = v@.subrange(pos as int, n as int);
        let ghost later = if e < n { v@.subrange(e + 1, n as int) } else { Seq::<char>::empty() };
        proof {
            lemma_line_end(s);
            let l = line_end(s);
            if l < e - pos {
                assert(s[l] == v@[pos + l]);
            }
            if e - pos < l {
                assert(s[e - pos] == v@[e as int]);
            }
            assert(l == e - pos);
            assert(s.subrange(0, l) =~= v@.subrange(pos as int, e as int));
            if e < n {
                assert(s.subrange(l + 1, s.len() as int) =~= later);
            } else {
                assert(lines_of(later) =~= Seq::<Seq<char>>::empty());
            }
            assert(lines_of(s) =~= seq![v@.subrange(pos as int, e as int)] + lines_of(later));
        }
        let end = if e > pos && v[e - 1] == '\r' { e - 1 } else { e };
        assert(v@.subrange(pos as int, end as int) =~= strip_cr(v@.subrange(pos as int, e as int)));
        let ghost before = out@.map_values(|s: String| s@);
        out.push(String::from_str(content.substring_char(pos, end)));
        assert(out@.map_values(|s: String| s@) =~= before.push(v@.subrange(pos as int, end as int)));
        assert(lines_of(s).map_values(|l: Seq<char>| strip_cr(l)) =~= seq![strip_cr(v@.subrange(pos as int, e as int))]
            + lines_of(later).map_values(|l: Seq<char>| strip_cr(l)));
        if e < n {
            pos = e + 1;
        } else {
            pos = n;
            assert(v@.subrange(n as int, n as int) =~= later);
        }
    }
    assert(lines_of(v@.subrange(n as int, n as int)) =~= Seq::<Seq<char>>::empty());
    assert(lines_of(v@).map_values(|l: Seq<char>| strip_cr(l)) =~= out@.map_values(|s: String| s@));
    out
}

} // verus!
