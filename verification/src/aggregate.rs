//! The multi-source aggregator: runs the ingestor over every configured
//! source in the given order and concatenates same-partition results,
//! preserving source order and, within a source, row order.  If any single
//! source fails fatally — unreadable, or missing its header — the whole
//! run fails; no source is silently skipped.

use vstd::prelude::*;
use crate::alias::AliasTable;
use crate::fields::{opt_view, RowView, TrainingRow};
use crate::ingest::{
    diag_views, has_header, ingest_spec, ingest_source, row_views, DiagView, Diagnostic,
};
use crate::status::classify_spec;

verus! {

/// Why a whole aggregation run failed, and at which source (0-based, in
/// the order the sources were given).
#[derive(Clone, Copy, Debug, PartialEq, Eq, Structural)]
pub enum AggregateError {
    /// The source's text could not be read at all.
    SourceUnreadable { index: usize },
    /// The source has no header row: no kept line at all, or a first kept
    /// line with no column that resolves to the status field.
    MissingHeader { index: usize },
}

/// One diagnostic, tagged with the position of the source that produced it.
#[derive(Clone, Debug, PartialEq, Eq)]
pub struct SourceDiagnostic {
    pub source: usize,
    pub diagnostic: Diagnostic,
}

/// The mathematical shape of a tagged diagnostic.
pub struct SourceDiagView {
    pub source: int,
    pub diagnostic: DiagView,
}

impl View for SourceDiagnostic {
    type V = SourceDiagView;

    open spec fn view(&self) -> SourceDiagView {
        SourceDiagView { source: self.source as int, diagnostic: self.diagnostic@ }
    }
}

/// The views of a sequence of tagged diagnostics.
pub open spec fn source_diag_views(s: Seq<SourceDiagnostic>) -> Seq<SourceDiagView> {
    Seq::new(s.len(), |i: int| s[i]@)
}

/// The views of the given sources' texts; `None` stands for a source
/// whose text could not be read.
pub open spec fn source_views(s: Seq<Option<String>>) -> Seq<Option<Seq<char>>> {
    Seq::new(s.len(), |i: int| opt_view(s[i]))
}

/// The diagnostics of source `k`, each tagged with `k`.
pub open spec fn tag_diags(k: int, ds: Seq<DiagView>) -> Seq<SourceDiagView> {
    Seq::new(ds.len(), |i: int| SourceDiagView { source: k, diagnostic: ds[i] })
}

/// The mathematical result of a whole aggregation run.
pub struct AggregateView {
    pub confirmed: Seq<RowView>,
    pub false_positive: Seq<RowView>,
    pub diagnostics: Seq<SourceDiagView>,
}

/// The result of aggregating the given sources in order: each partition is
/// the concatenation of the per-source partitions in source order, and the
/// earliest fatally failing source decides the error.
pub open spec fn aggregate_spec(
    t: Seq<(Seq<char>, crate::fields::Field)>,
    sources: Seq<Option<Seq<char>>>,
) -> Result<AggregateView, AggregateError>
    decreases sources.len(),
{
    if sources.len() == 0 {
        Result::Ok(
            AggregateView {
                confirmed: Seq::empty(),
                false_positive: Seq::empty(),
                diagnostics: Seq::empty(),
            },
        )
    } else {
        match aggregate_spec(t, sources.drop_last()) {
            Result::Err(e) => Result::Err(e),
            Result::Ok(acc) => {
                let k = sources.len() - 1;
                match sources.last() {
                    Option::None => Result::Err(
                        AggregateError::SourceUnreadable { index: k as usize },
                    ),
                    Option::Some(text) => {
                        if !has_header(t, text) {
                            Result::Err(AggregateError::MissingHeader { index: k as usize })
                        } else {
                            let ing = ingest_spec(t, text);
                            Result::Ok(
                                AggregateView {
                                    confirmed: acc.confirmed + ing.confirmed,
                                    false_positive: acc.false_positive + ing.false_positive,
                                    diagnostics: acc.diagnostics + tag_diags(
                                        k as int,
                                        ing.diagnostics,
                                    ),
                                },
                            )
                        }
                    },
                }
            },
        }
    }
}

/// The merged partitions and tagged diagnostics of a whole run.
pub struct AggregateOutput {
    /// All sources' confirmed rows, in source order then row order.
    pub confirmed: Vec<TrainingRow>,
    /// All sources' confirmed non-planet rows, in the same order.
    pub false_positive: Vec<TrainingRow>,
    /// All sources' diagnostics, tagged by source position.
    pub diagnostics: Vec<SourceDiagnostic>,
}

impl View for AggregateOutput {
    type V = AggregateView;

    open spec fn view(&self) -> AggregateView {
        AggregateView {
            confirmed: row_views(self.confirmed@),
            false_positive: row_views(self.false_positive@),
            diagnostics: source_diag_views(self.diagnostics@),
        }
    }
}

/// A fatal verdict on any prefix of the sources is the verdict on the
/// whole run: aggregation stops at the earliest failing source.
proof fn lemma_aggregate_err_prefix(
    t: Seq<(Seq<char>, crate::fields::Field)>,
    s: Seq<Option<Seq<char>>>,
    m: int,
)
    requires
        0 <= m <= s.len(),
        aggregate_spec(t, s.take(m)) is Err,
    ensures
        aggregate_spec(t, s) == aggregate_spec(t, s.take(m)),
    decreases s.len() - m,
{
    if m < s.len() {
        assert(s.take(m + 1).drop_last() =~= s.take(m));
        lemma_aggregate_err_prefix(t, s, m + 1);
    } else {
        assert(s.take(m) =~= s);
    }
}

/// Runs the ingestor over every source in order and merges the partition
/// results.  A source given as `None` could not be read and fails the run;
/// so does a source without a header.  The training partitions of the
/// result are what the downstream comparison hook receives.
pub fn call_ai(table: &AliasTable, sources: &Vec<Option<String>>) -> (r: Result<
    AggregateOutput,
    AggregateError,
>)
    ensures
        r is Ok <==> aggregate_spec(table@, source_views(sources@)) is Ok,
        r matches Ok(out) ==> aggregate_spec(table@, source_views(sources@)) == Result::<
            AggregateView,
            AggregateError,
        >::Ok(out@),
        r matches Err(e) ==> aggregate_spec(table@, source_views(sources@)) == Result::<
            AggregateView,
            AggregateError,
        >::Err(e),
{
    let ghost t = table@;
    let ghost sv = source_views(sources@);
    let mut confirmed: Vec<TrainingRow> = Vec::new();
    let mut false_positive: Vec<TrainingRow> = Vec::new();
    let mut diagnostics: Vec<SourceDiagnostic> = Vec::new();
    let mut k: usize = 0;
    proof {
        assert(sv.take(0) =~= Seq::<Option<Seq<char>>>::empty());
        assert(row_views(confirmed@) =~= Seq::<RowView>::empty());
        assert(row_views(false_positive@) =~= Seq::<RowView>::empty());
        assert(source_diag_views(diagnostics@) =~= Seq::<SourceDiagView>::empty());
    }
    while k < sources.len()
        invariant
            k <= sources.len(),
            t == table@,
            sv == source_views(sources@),
            aggregate_spec(t, sv.take(k as int)) == Result::<AggregateView, AggregateError>::Ok(
                AggregateView {
                    confirmed: row_views(confirmed@),
                    false_positive: row_views(false_positive@),
                    diagnostics: source_diag_views(diagnostics@),
                },
            ),
        decreases sources.len() - k,
    {
        proof {
            assert(sv.take(k + 1).drop_last() =~= sv.take(k as int));
            assert(sv.take(k + 1).last() == sv[k as int]);
            assert(sv[k as int] == opt_view(sources@[k as int]));
        }
        match &sources[k] {
            Option::None => {
                let e = AggregateError::SourceUnreadable { index: k };
                proof {
                    assert(aggregate_spec(t, sv.take(k + 1)) == Result::<
                        AggregateView,
                        AggregateError,
                    >::Err(e));
                    lemma_aggregate_err_prefix(t, sv, k + 1);
                }
                return Result::Err(e);
            },
            Option::Some(text) => {
                match ingest_source(table, text.as_str()) {
                    Result::Err(_) => {
                        let e = AggregateError::MissingHeader { index: k };
                        proof {
                            assert(aggregate_spec(t, sv.take(k + 1)) == Result::<
                                AggregateView,
                                AggregateError,
                            >::Err(e));
                            lemma_aggregate_err_prefix(t, sv, k + 1);
                        }
                        return Result::Err(e);
                    },
                    Result::Ok(out) => {
                        let ghost ing = ingest_spec(t, text@);
                        let mut more_confirmed = out.confirmed;
                        let mut more_false = out.false_positive;
                        let mut more_diags = out.diagnostics;
                        proof {
                            assert(row_views(confirmed@ + more_confirmed@) =~= row_views(
                                confirmed@,
                            ) + row_views(more_confirmed@));
                            assert(row_views(false_positive@ + more_false@) =~= row_views(
                                false_positive@,
                            ) + row_views(more_false@));
                        }
                        let ghost conf_before = row_views(confirmed@);
                        let ghost false_before = row_views(false_positive@);
                        confirmed.append(&mut more_confirmed);
                        false_positive.append(&mut more_false);
                        let ghost tagged = tag_diags(k as int, ing.diagnostics);
                        let ghost before = source_diag_views(diagnostics@);
                        let ghost d0 = more_diags@;
                        let nd = more_diags.len();
                        let mut j: usize = 0;
                        proof {
                            assert(d0.skip(0) =~= d0);
                            assert(before + tagged.take(0) =~= before);
                        }
                        while j < nd
                            invariant
                                j <= nd == d0.len() == ing.diagnostics.len(),
                                more_diags@ == d0.skip(j as int),
                                diag_views(d0) == ing.diagnostics,
                                tagged == tag_diags(k as int, ing.diagnostics),
                                source_diag_views(diagnostics@) == before + tagged.take(j as int),
                            decreases nd - j,
                        {
                            proof {
                                assert(d0.skip(j as int)[0] == d0[j as int]);
                                assert(d0.skip(j as int).remove(0) =~= d0.skip(j + 1));
                            }
                            let d = more_diags.remove(0);
                            let sd = SourceDiagnostic { source: k, diagnostic: d };
                            proof {
                                assert(sd@.diagnostic == diag_views(d0)[j as int]);
                                assert(tagged[j as int] == sd@);
                                assert(source_diag_views(diagnostics@.push(sd))
                                    =~= source_diag_views(diagnostics@).push(sd@));
                                assert(tagged.take(j + 1) =~= tagged.take(j as int).push(
                                    tagged[j as int],
                                ));
                                assert(before + tagged.take(j + 1) =~= (before + tagged.take(
                                    j as int,
                                )).push(tagged[j as int]));
                            }
                            diagnostics.push(sd);
                            j = j + 1;
                        }
                        proof {
                            assert(tagged.take(tagged.len() as int) =~= tagged);
                            assert(aggregate_spec(t, sv.take(k + 1)) == Result::<
                                AggregateView,
                                AggregateError,
                            >::Ok(
                                AggregateView {
                                    confirmed: conf_before + ing.confirmed,
                                    false_positive: false_before + ing.false_positive,
                                    diagnostics: before + tagged,
                                },
                            ));
                        }
                    },
                }
            },
        }
        k = k + 1;
    }
    proof {
        assert(sv.take(sv.len() as int) =~= sv);
    }
    Result::Ok(AggregateOutput { confirmed, false_positive, diagnostics })
}

/// Aggregation is order-preserving concatenation: adding one more source
/// to a successful run appends that source's partitions at the end, never
/// interleaving or reordering rows of different sources.
pub proof fn lemma_aggregate_order(
    t: Seq<(Seq<char>, crate::fields::Field)>,
    sources: Seq<Option<Seq<char>>>,
    text: Seq<char>,
    acc: AggregateView,
)
    requires
        aggregate_spec(t, sources) == Result::<AggregateView, AggregateError>::Ok(acc),
        has_header(t, text),
    ensures
        aggregate_spec(t, sources.push(Option::Some(text))) == Result::<
            AggregateView,
            AggregateError,
        >::Ok(
            AggregateView {
                confirmed: acc.confirmed + ingest_spec(t, text).confirmed,
                false_positive: acc.false_positive + ingest_spec(t, text).false_positive,
                diagnostics: acc.diagnostics + tag_diags(
                    sources.len() as int,
                    ingest_spec(t, text).diagnostics,
                ),
            },
        ),
{
    assert(sources.push(Option::Some(text)).drop_last() =~= sources);
}

/// The partition purity of a whole run: no candidate-labeled or
/// unknown-labeled row of any source appears in either merged partition.
pub proof fn lemma_aggregate_candidates_excluded(
    t: Seq<(Seq<char>, crate::fields::Field)>,
    sources: Seq<Option<Seq<char>>>,
    v: AggregateView,
)
    requires
        aggregate_spec(t, sources) == Result::<AggregateView, AggregateError>::Ok(v),
    ensures
        forall|j: int|
            0 <= j < v.confirmed.len() ==> classify_spec(v.confirmed[j].status)
                == crate::status::StatusClass::Confirmed,
        forall|j: int|
            0 <= j < v.false_positive.len() ==> classify_spec(v.false_positive[j].status)
                == crate::status::StatusClass::FalsePositive,
    decreases sources.len(),
{
    if sources.len() > 0 {
        match aggregate_spec(t, sources.drop_last()) {
            Result::Ok(acc) => {
                lemma_aggregate_candidates_excluded(t, sources.drop_last(), acc);
                match sources.last() {
                    Option::Some(text) => {
                        crate::ingest::lemma_ingest_candidates_excluded(t, text);
                        let ing = ingest_spec(t, text);
                        assert forall|j: int| 0 <= j < v.confirmed.len() implies classify_spec(
                            v.confirmed[j].status,
                        ) == crate::status::StatusClass::Confirmed by {
                            if j < acc.confirmed.len() {
                                assert(v.confirmed[j] == acc.confirmed[j]);
                            } else {
                                assert(v.confirmed[j] == ing.confirmed[j - acc.confirmed.len()]);
                            }
                        }
                        assert forall|j: int|
                            0 <= j < v.false_positive.len() implies classify_spec(
                            v.false_positive[j].status,
                        ) == crate::status::StatusClass::FalsePositive by {
                            if j < acc.false_positive.len() {
                                assert(v.false_positive[j] == acc.false_positive[j]);
                            } else {
                                assert(v.false_positive[j] == ing.false_positive[j
                                    - acc.false_positive.len()]);
                            }
                        }
                    },
                    Option::None => {},
                }
            },
            Result::Err(_) => {},
        }
    }
}

} // verus!
