//! Per-file results, per-language summaries and the report that folds them.
use vstd::prelude::*;

use crate::reporter::Reporter;

verus! {

/// What the classification of one file gives: its language, its size in
/// bytes and how many of its lines are blank, comment and code.
#[derive(Copy, Clone, Debug, PartialEq, Eq)]
pub struct Detail {
    pub language: &'static str,
    pub bytes: u64,
    pub blank: usize,
    pub comment: usize,
    pub code: usize,
}

impl Detail {
    pub fn new(language: &'static str, bytes: u64, blank: usize, comment: usize, code: usize) -> (r: Self)
        ensures
            r.language == language,
            r.bytes == bytes,
            r.blank == blank,
            r.comment == comment,
            r.code == code,
    {
        Detail { language, bytes, blank, comment, code }
    }
}


/// Files, bytes and lines, summed without bound.
pub struct Totals {
    pub files: nat,
    pub bytes: nat,
    pub blank: nat,
    pub comment: nat,
    pub code: nat,
}

pub open spec fn totals_zero() -> Totals {
    Totals { files: 0, bytes: 0, blank: 0, comment: 0, code: 0 }
}

/// `t` with the file `d` added.
pub open spec fn plus(t: Totals, d: Detail) -> Totals {
    Totals {
        files: t.files + 1,
        bytes: t.bytes + d.bytes as nat,
        blank: t.blank + d.blank as nat,
        comment: t.comment + d.comment as nat,
        code: t.code + d.code as nat,
    }
}

/// Whether each field of `t` fits in the machine type that holds it.
pub open spec fn fits(t: Totals) -> bool {
    &&& t.files <= usize::MAX
    &&& t.bytes <= u64::MAX
    &&& t.blank <= usize::MAX
    &&& t.comment <= usize::MAX
    &&& t.code <= usize::MAX
}

/// Whether each field of `a` is at most the same field of `b`.
pub open spec fn below(a: Totals, b: Totals) -> bool {
    &&& a.files <= b.files
    &&& a.bytes <= b.bytes
    &&& a.blank <= b.blank
    &&& a.comment <= b.comment
    &&& a.code <= b.code
}

/// The sum over all of `ds`.
pub open spec fn sum_all(ds: Seq<Detail>) -> Totals
    decreases ds.len(),
{
    if ds.len() == 0 {
        totals_zero()
    } else {
        plus(sum_all(ds.drop_last()), ds.last())
    }
}

/// The sum over those of `ds` whose language is `l`.
pub open spec fn sum_lang(ds: Seq<Detail>, l: Seq<char>) -> Totals
    decreases ds.len(),
{
    if ds.len() == 0 {
        totals_zero()
    } else if ds.last().language@ == l {
        plus(sum_lang(ds.drop_last(), l), ds.last())
    } else {
        sum_lang(ds.drop_last(), l)
    }
}

/// Whether some file of `ds` is in the language `l`.
pub open spec fn has_language(ds: Seq<Detail>, l: Seq<char>) -> bool {
    exists|i: int| 0 <= i < ds.len() && (#[trigger] ds[i]).language@ == l
}

/// A report as a value: the summary of each language that occurs, and the
/// grand total.
pub struct ReportView {
    pub by_language: Map<Seq<char>, Totals>,
    pub sum: Totals,
}

/// The report that the files `ds` make.
pub open spec fn report_of(ds: Seq<Detail>) -> ReportView {
    ReportView {
        by_language: Map::new(|l: Seq<char>| has_language(ds, l), |l: Seq<char>| sum_lang(ds, l)),
        sum: sum_all(ds),
    }
}

/// Taking the file at `j` out of `ds` and adding it back gives the same sums.
pub proof fn lemma_sum_remove(ds: Seq<Detail>, j: int, l: Seq<char>)
    requires
        0 <= j < ds.len(),
    ensures
        sum_all(ds) == plus(sum_all(ds.remove(j)), ds[j]),
        sum_lang(ds, l) == if ds[j].language@ == l {
            plus(sum_lang(ds.remove(j), l), ds[j])
        } else {
            sum_lang(ds.remove(j), l)
        },
    decreases ds.len(),
{
    if j < ds.len() - 1 {
        lemma_sum_remove(ds.drop_last(), j, l);
        assert(ds.remove(j).drop_last() =~= ds.drop_last().remove(j));
        assert(ds.remove(j).last() == ds.last());
    } else {
        assert(ds.remove(j) =~= ds.drop_last());
    }
}

/// The sums of `ds` depend only on which files it holds, not on their order.
pub proof fn lemma_sum_permutation(a: Seq<Detail>, b: Seq<Detail>, l: Seq<char>)
    requires
        a.to_multiset() == b.to_multiset(),
    ensures
        sum_all(a) == sum_all(b),
        sum_lang(a, l) == sum_lang(b, l),
    decreases a.len(),
{
    broadcast use vstd::seq_lib::group_to_multiset_ensures;

    if a.len() == 0 {
        assert(b.to_multiset().len() == 0);
        assert(b =~= Seq::<Detail>::empty());
    } else {
        let x = a.last();
        assert(a.drop_last().push(x) =~= a);
        assert(a.to_multiset().count(x) > 0);
        assert(b.contains(x));
        let j = choose|j: int| 0 <= j < b.len() && b[j] == x;
        assert(a.drop_last().to_multiset() =~= b.remove(j).to_multiset());
        lemma_sum_permutation(a.drop_last(), b.remove(j), l);
        lemma_sum_remove(b, j, l);
    }
}

/// Aggregation does not depend on the order in which the files arrive:
/// any two sequences that hold the same files, each as often, give the
/// same report.
pub proof fn lemma_report_order_independent(a: Seq<Detail>, b: Seq<Detail>)
    requires
        a.to_multiset() == b.to_multiset(),
    ensures
        report_of(a) == report_of(b),
{
    broadcast use vstd::seq_lib::group_to_multiset_ensures;

    assert forall|l: Seq<char>| has_language(a, l) == has_language(b, l) by {
        if has_language(a, l) {
            let i = choose|i: int| 0 <= i < a.len() && (#[trigger] a[i]).language@ == l;
            assert(a.contains(a[i]));
            assert(a.to_multiset().count(a[i]) > 0);
            assert(b.to_multiset().count(a[i]) > 0);
            assert(b.contains(a[i]));
            let k = choose|k: int| 0 <= k < b.len() && b[k] == a[i];
            assert(b[k].language@ == l);
        }
        if has_language(b, l) {
            let i = choose|i: int| 0 <= i < b.len() && (#[trigger] b[i]).language@ == l;
            assert(b.contains(b[i]));
            assert(b.to_multiset().count(b[i]) > 0);
            assert(a.to_multiset().count(b[i]) > 0);
            assert(a.contains(b[i]));
            let k = choose|k: int| 0 <= k < a.len() && a[k] == b[i];
            assert(a[k].language@ == l);
        }
    }
    assert forall|l: Seq<char>| sum_lang(a, l) == sum_lang(b, l) by {
        lemma_sum_permutation(a, b, l);
    }
    lemma_sum_permutation(a, b, Seq::empty());
    assert(report_of(a).by_language =~= report_of(b).by_language);
}


/// Each field of the sum over files in one language is at most the same
/// field of the sum over all files.
pub proof fn lemma_lang_below_all(ds: Seq<Detail>, l: Seq<char>)
    ensures
        below(sum_lang(ds, l), sum_all(ds)),
    decreases ds.len(),
{
    if ds.len() > 0 {
        lemma_lang_below_all(ds.drop_last(), l);
    }
}

/// Where no file is in the language `l`, the sum over that language is zero.
pub proof fn lemma_absent_zero(ds: Seq<Detail>, l: Seq<char>)
    requires
        !has_language(ds, l),
    ensures
        sum_lang(ds, l) == totals_zero(),
    decreases ds.len(),
{
    if ds.len() > 0 {
        assert(ds.last() == ds[ds.len() - 1]);
        assert forall|i: int| 0 <= i < ds.drop_last().len() implies (#[trigger] ds.drop_last()[i]).language@ != l by {
            assert(ds.drop_last()[i] == ds[i]);
        }
        lemma_absent_zero(ds.drop_last(), l);
    }
}

/// The sums over a prefix are at most the sums over the whole.
pub proof fn lemma_prefix_below(ds: Seq<Detail>, i: int)
    requires
        0 <= i <= ds.len(),
    ensures
        below(sum_all(ds.take(i)), sum_all(ds)),
    decreases ds.len() - i,
{
    if i < ds.len() {
        lemma_prefix_below(ds, i + 1);
        assert(ds.take(i + 1).drop_last() =~= ds.take(i));
    } else {
        assert(ds.take(i) =~= ds);
    }
}

/// The summary of the files in one language.
#[derive(Copy, Clone, Debug, PartialEq, Eq)]
pub struct LanguageDetail {
    pub language: &'static str,
    pub files: usize,
    pub bytes: u64,
    pub blank: usize,
    pub comment: usize,
    pub code: usize,
}

pub open spec fn language_totals(x: LanguageDetail) -> Totals {
    Totals {
        files: x.files as nat,
        bytes: x.bytes as nat,
        blank: x.blank as nat,
        comment: x.comment as nat,
        code: x.code as nat,
    }
}

impl LanguageDetail {
    /// The summary, under the name `language`, of the files `details`.
    pub fn from_details(language: &'static str, details: &[Detail]) -> (r: Self)
        requires
            fits(sum_all(details@)),
        ensures
            r.language == language,
            language_totals(r) == sum_all(details@),
    {
        let mut files: usize = 0;
        let mut bytes: u64 = 0;
        let mut blank: usize = 0;
        let mut comment: usize = 0;
        let mut code: usize = 0;
        let mut i: usize = 0;
        while i < details.len()
            invariant
                i <= details@.len(),
                fits(sum_all(details@)),
                (Totals {
                    files: files as nat,
                    bytes: bytes as nat,
                    blank: blank as nat,
                    comment: comment as nat,
                    code: code as nat,
                }) == sum_all(details@.take(i as int)),
            decreases details.len() - i,
        {
            proof {
                lemma_prefix_below(details@, i + 1);
                assert(details@.take(i + 1).drop_last() =~= details@.take(i as int));
            }
            let d = details[i];
            files = files + 1;
            bytes = bytes + d.bytes;
            blank = blank + d.blank;
            comment = comment + d.comment;
            code = code + d.code;
            i = i + 1;
        }
        assert(details@.take(i as int) =~= details@);
        LanguageDetail { language, files, bytes, blank, comment, code }
    }
}

/// The grand total over all files.
#[derive(Copy, Clone, Debug, PartialEq, Eq)]
pub struct SumDetail {
    pub files: usize,
    pub bytes: u64,
    pub blank: usize,
    pub comment: usize,
    pub code: usize,
}

pub open spec fn sum_totals(x: SumDetail) -> Totals {
    Totals {
        files: x.files as nat,
        bytes: x.bytes as nat,
        blank: x.blank as nat,
        comment: x.comment as nat,
        code: x.code as nat,
    }
}

impl SumDetail {
    pub fn zero() -> (r: Self)
        ensures
            sum_totals(r) == totals_zero(),
    {
        SumDetail { files: 0, bytes: 0, blank: 0, comment: 0, code: 0 }
    }
}

/// Whether no two summaries of `v` are of the same language.
pub open spec fn distinct_languages(v: Seq<LanguageDetail>) -> bool {
    forall|i: int, j: int|
        0 <= i < v.len() && 0 <= j < v.len() && i != j ==> (#[trigger] v[i]).language@
            != (#[trigger] v[j]).language@
}

/// The summaries of `v`, by language.
pub open spec fn languages_map(v: Seq<LanguageDetail>) -> Map<Seq<char>, Totals> {
    Map::new(
        |l: Seq<char>| exists|i: int| 0 <= i < v.len() && (#[trigger] v[i]).language@ == l,
        |l: Seq<char>|
            language_totals(v[choose|i: int| 0 <= i < v.len() && (#[trigger] v[i]).language@ == l]),
    )
}

/// The summaries of each language, in no particular order, and the grand total.
#[derive(Debug)]
pub struct Report {
    pub languages: Vec<LanguageDetail>,
    pub sum: SumDetail,
}

impl View for Report {
    type V = ReportView;

    open spec fn view(&self) -> ReportView {
        ReportView { by_language: languages_map(self.languages@), sum: sum_totals(self.sum) }
    }
}

impl Report {
    pub fn new(languages: Vec<LanguageDetail>, sum: SumDetail) -> (r: Self)
        ensures
            r.languages@ == languages@,
            r.sum == sum,
    {
        Report { languages, sum }
    }

    /// Whether each language has one summary at most.
    pub open spec fn wf(&self) -> bool {
        distinct_languages(self.languages@)
    }
}

/// Folds the details of all files into a report: one summary per language
/// and the grand total.
pub fn aggregate_details(details: Vec<Detail>) -> (r: Report)
    requires
        fits(sum_all(details@)),
    ensures
        r.wf(),
        r@ == report_of(details@),
{
    let mut reporter = Reporter::new();
    let mut i: usize = 0;
    while i < details.len()
        invariant
            i <= details.len(),
            reporter.wf(),
            reporter.seen() == details@.take(i as int),
            fits(sum_all(details@)),
        decreases details.len() - i,
    {
        proof {
            lemma_prefix_below(details@, i + 1);
            assert(details@.take(i as int).push(details@[i as int]) =~= details@.take(i + 1));
        }
        let added = reporter.add(details[i]);
        assert(added);
        i = i + 1;
    }
    assert(details@.take(i as int) =~= details@);
    reporter.research()
}


/// Aggregating two orderings of the same files gives the same grand total
/// and, for each language, the same summary.
pub proof fn lemma_aggregate_order_independent(a: Seq<Detail>, b: Seq<Detail>, ra: Report, rb: Report)
    requires
        a.to_multiset() == b.to_multiset(),
        ra@ == report_of(a),
        rb@ == report_of(b),
    ensures
        ra.sum == rb.sum,
        languages_map(ra.languages@) == languages_map(rb.languages@),
{
    lemma_report_order_independent(a, b);
    assert(sum_totals(ra.sum) == sum_totals(rb.sum));
}

} // verus!
