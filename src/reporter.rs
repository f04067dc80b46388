//! The aggregator, which folds the details of files as they arrive.
use vstd::prelude::*;

use crate::text::same_text;

use crate::detail::{
    distinct_languages, fits, has_language, language_totals, languages_map, lemma_absent_zero,
    lemma_lang_below_all, report_of, sum_all, sum_lang, sum_totals, Detail,
    LanguageDetail, SumDetail,
};

pub use crate::detail::Report;

verus! {

/// The aggregator: folds the files' details, one at a time and in any
/// order, into a summary per language and a grand total.
pub struct Reporter {
    kinds: Vec<LanguageDetail>,
    sum: SumDetail,
    seen: Ghost<Seq<Detail>>,
}

impl Reporter {
    /// The files folded in so far, in the order they came.
    pub closed spec fn seen(&self) -> Seq<Detail> {
        self.seen@
    }

    pub closed spec fn wf(&self) -> bool {
        &&& distinct_languages(self.kinds@)
        &&& forall|i: int|
            0 <= i < self.kinds@.len() ==> language_totals(#[trigger] self.kinds@[i]) == sum_lang(
                self.seen@,
                self.kinds@[i].language@,
            )
        &&& forall|l: Seq<char>|
            #[trigger] has_language(self.seen@, l) <==> exists|i: int|
                0 <= i < self.kinds@.len() && (#[trigger] self.kinds@[i]).language@ == l
        &&& sum_totals(self.sum) == sum_all(self.seen@)
    }

    pub fn new() -> (r: Self)
        ensures
            r.wf(),
            r.seen() == Seq::<Detail>::empty(),
    {
        Reporter { kinds: Vec::new(), sum: SumDetail::zero(), seen: Ghost(Seq::empty()) }
    }

    /// Folds `detail` in, unless a total would no longer fit its machine
    /// type; then nothing changes and the result is false.
    pub fn add(&mut self, detail: Detail) -> (r: bool)
        requires
            old(self).wf(),
        ensures
            final(self).wf(),
            r == fits(sum_all(old(self).seen().push(detail))),
            r ==> final(self).seen() == old(self).seen().push(detail),
            !r ==> final(self).seen() == old(self).seen(),
    {
        let ghost prev = self.seen@;
        let ghost next = prev.push(detail);
        assert(next.drop_last() =~= prev);
        let s = self.sum;
        if s.files == usize::MAX || detail.bytes > u64::MAX - s.bytes || detail.blank > usize::MAX
            - s.blank || detail.comment > usize::MAX - s.comment || detail.code > usize::MAX
            - s.code {
            return false;
        }
        proof {
            lemma_lang_below_all(next, detail.language@);
        }
        let mut j: usize = 0;
        while j < self.kinds.len() && !same_text(self.kinds[j].language, detail.language)
            invariant
                j <= self.kinds.len(),
                self.wf(),
                self.seen@ == prev,
                forall|k: int| 0 <= k < j ==> (#[trigger] self.kinds@[k]).language@ != detail.language@,
            decreases self.kinds.len() - j,
        {
            j = j + 1;
        }
        let found = j < self.kinds.len();
        let ghost before = self.kinds@;
        if found {
            let k = self.kinds[j];
            assert(language_totals(k) == sum_lang(prev, detail.language@));
            self.kinds[j] = LanguageDetail {
                language: k.language,
                files: k.files + 1,
                bytes: k.bytes + detail.bytes,
                blank: k.blank + detail.blank,
                comment: k.comment + detail.comment,
                code: k.code + detail.code,
            };
        } else {
            proof {
                if has_language(prev, detail.language@) {
                    let i = choose|i: int|
                        0 <= i < before.len() && (#[trigger] before[i]).language@ == detail.language@;
                }
            }
            self.kinds.push(
                LanguageDetail {
                    language: detail.language,
                    files: 1,
                    bytes: detail.bytes,
                    blank: detail.blank,
                    comment: detail.comment,
                    code: detail.code,
                },
            );
        }
        self.sum = SumDetail {
            files: s.files + 1,
            bytes: s.bytes + detail.bytes,
            blank: s.blank + detail.blank,
            comment: s.comment + detail.comment,
            code: s.code + detail.code,
        };
        self.seen = Ghost(next);
        proof {
            assert(distinct_languages(self.kinds@));
            assert forall|i: int| 0 <= i < self.kinds@.len() implies language_totals(#[trigger] self.kinds@[i]) == sum_lang(
                next,
                self.kinds@[i].language@,
            ) by {
                assert(next.last() == detail);
                if i < before.len() && !(found && i == j) {
                    assert(before[i] == self.kinds@[i]);
                    assert(language_totals(before[i]) == sum_lang(prev, before[i].language@));
                    if found {
                        assert(before[j as int].language@ == detail.language@);
                    }
                    assert(before[i].language@ != detail.language@);
                } else if !found {
                    assert(!has_language(prev, detail.language@));
                    lemma_absent_zero(prev, detail.language@);
                }
            }
            assert(sum_totals(self.sum) == sum_all(next));
            assert forall|l: Seq<char>| #[trigger] has_language(next, l) <==> exists|i: int|
                0 <= i < self.kinds@.len() && (#[trigger] self.kinds@[i]).language@ == l by {
                if has_language(next, l) {
                    let i = choose|i: int| 0 <= i < next.len() && (#[trigger] next[i]).language@ == l;
                    if i < prev.len() {
                        assert(prev[i] == next[i]);
                        assert(has_language(prev, l));
                        let q = choose|q: int|
                            0 <= q < before.len() && (#[trigger] before[q]).language@ == l;
                        assert(self.kinds@[q].language@ == l);
                    } else if found {
                        assert(self.kinds@[j as int].language@ == l);
                    } else {
                        assert(self.kinds@[before.len() as int].language@ == l);
                    }
                }
                if exists|i: int| 0 <= i < self.kinds@.len() && (#[trigger] self.kinds@[i]).language@ == l {
                    let i = choose|i: int|
                        0 <= i < self.kinds@.len() && (#[trigger] self.kinds@[i]).language@ == l;
                    if i < before.len() && !(found && i == j) {
                        assert(before[i].language@ == l);
                        assert(has_language(prev, l));
                        let q = choose|q: int| 0 <= q < prev.len() && (#[trigger] prev[q]).language@ == l;
                        assert(next[q] == prev[q]);
                    } else {
                        assert(next[prev.len() as int] == detail);
                    }
                }
            }
        }
        true
    }

    /// The report of all the files folded in.
    pub fn research(self) -> (r: Report)
        requires
            self.wf(),
        ensures
            r.wf(),
            r@ == report_of(self.seen()),
    {
        let r = Report::new(self.kinds, self.sum);
        proof {
            let ds = self.seen@;
            let v = r.languages@;
            assert forall|l: Seq<char>| #[trigger] languages_map(v).contains_key(l) implies languages_map(v)[l] == sum_lang(ds, l) by {
                let i = choose|i: int| 0 <= i < v.len() && (#[trigger] v[i]).language@ == l;
                assert(language_totals(v[i]) == sum_lang(ds, v[i].language@));
            }
            assert forall|l: Seq<char>| #[trigger] languages_map(v).contains_key(l) <==> has_language(ds, l) by {
            }
            assert(languages_map(v) =~= report_of(ds).by_language);
        }
        r
    }
}

} // verus!
