//! A run as a whole: the files found, classified under the registry, and
//! folded into a report.
use vstd::prelude::*;

use crate::calculate::{calculate, detail_for};
use crate::config::{lookup_info, Config, Info};
use crate::detail::{lemma_report_order_independent, report_of, Detail};

verus! {

/// A file as a worker sees it: its extension, if any, its text and its size.
pub struct FileData {
    pub ext: Option<Seq<char>>,
    pub content: Seq<char>,
    pub bytes: u64,
}

/// The detail that a worker makes of `f`: none where no language of
/// `config` claims its extension.
pub open spec fn detail_of(config: Seq<Info>, f: FileData) -> Option<Detail> {
    match f.ext {
        None => None,
        Some(e) => match lookup_info(config, e) {
            None => None,
            Some(info) => Some(detail_for(info, f.content, f.bytes)),
        },
    }
}

pub open spec fn ext_view(ext: Option<&str>) -> Option<Seq<char>> {
    match ext {
        None => None,
        Some(e) => Some(e@),
    }
}

/// A worker's step for one file: its language by its extension `ext`, then
/// the classification of its text `content`, whose size is `bytes`; none
/// where no language claims the extension.
pub fn statistical_detail(config: &Config, ext: Option<&str>, content: &str, bytes: u64) -> (r:
    Option<Detail>)
    ensures
        r == detail_of(config.languages@, FileData { ext: ext_view(ext), content: content@, bytes }),
{
    match config.get_by_extension(ext) {
        None => None,
        Some(info) => Some(calculate(content, bytes, info)),
    }
}

/// The details of `files`, in the order the files came.
pub open spec fn run_details(config: Seq<Info>, files: Seq<FileData>) -> Seq<Detail>
    decreases files.len(),
{
    if files.len() == 0 {
        Seq::empty()
    } else {
        let rest = run_details(config, files.drop_last());
        match detail_of(config, files.last()) {
            None => rest,
            Some(d) => rest.push(d),
        }
    }
}

/// The report of a run over `files`.
pub open spec fn run_report(config: Seq<Info>, files: Seq<FileData>) -> crate::detail::ReportView {
    report_of(run_details(config, files))
}

proof fn lemma_run_remove(config: Seq<Info>, files: Seq<FileData>, j: int)
    requires
        0 <= j < files.len(),
    ensures
        run_details(config, files).to_multiset() == match detail_of(config, files[j]) {
            None => run_details(config, files.remove(j)).to_multiset(),
            Some(d) => run_details(config, files.remove(j)).to_multiset().insert(d),
        },
    decreases files.len(),
{
    broadcast use vstd::seq_lib::group_to_multiset_ensures;

    if j < files.len() - 1 {
        lemma_run_remove(config, files.drop_last(), j);
        assert(files.remove(j).drop_last() =~= files.drop_last().remove(j));
        assert(files.remove(j).last() == files.last());
        assert(run_details(config, files).to_multiset() =~= match detail_of(config, files[j]) {
            None => run_details(config, files.remove(j)).to_multiset(),
            Some(d) => run_details(config, files.remove(j)).to_multiset().insert(d),
        });
    } else {
        assert(files.remove(j) =~= files.drop_last());
    }
}

proof fn lemma_run_permutation(config: Seq<Info>, a: Seq<FileData>, b: Seq<FileData>)
    requires
        a.to_multiset() == b.to_multiset(),
    ensures
        run_details(config, a).to_multiset() == run_details(config, b).to_multiset(),
    decreases a.len(),
{
    broadcast use vstd::seq_lib::group_to_multiset_ensures;

    if a.len() == 0 {
        assert(b.to_multiset().len() == 0);
        assert(b =~= Seq::<FileData>::empty());
    } else {
        let x = a.last();
        assert(a.drop_last().push(x) =~= a);
        assert(a.to_multiset().count(x) > 0);
        assert(b.contains(x));
        let j = choose|j: int| 0 <= j < b.len() && b[j] == x;
        assert(a.drop_last().to_multiset() =~= b.remove(j).to_multiset());
        lemma_run_permutation(config, a.drop_last(), b.remove(j));
        lemma_run_remove(config, b, j);
    }
}

/// Two runs over the same files give the same report, whatever order the
/// walk found them in and the workers finished them in.
pub proof fn lemma_rerun_same_report(config: Seq<Info>, a: Seq<FileData>, b: Seq<FileData>)
    requires
        a.to_multiset() == b.to_multiset(),
    ensures
        run_report(config, a) == run_report(config, b),
{
    lemma_run_permutation(config, a, b);
    lemma_report_order_independent(run_details(config, a), run_details(config, b));
}

/// A file whose extension no language claims makes no detail, and so has
/// no part in the report.
pub proof fn lemma_unclaimed_file_dropped(config: Seq<Info>, files: Seq<FileData>, f: FileData)
    requires
        f.ext is None || lookup_info(config, f.ext->0) is None,
    ensures
        run_details(config, files.push(f)) == run_details(config, files),
        run_report(config, files.push(f)) == run_report(config, files),
{
    assert(files.push(f).drop_last() =~= files);
}

} // verus!
