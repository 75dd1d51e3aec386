//! The source ingestor: streams one source's raw tabular text, resolves
//! column aliases, classifies each row's status, and partitions the rows
//! into confirmed planets and confirmed non-planets.
//!
//! The input format is a comma-separated UTF-8 table; every comma
//! separates fields, so field values themselves carry no commas.  Lines
//! beginning with `#` are comments; they and blank lines are skipped
//! before header detection, and the first remaining line is the required
//! header, which must resolve some column to the status field.  A row
//! that fails structural parsing (wrong column count) is skipped with a
//! diagnostic, never fatal; a missing header is fatal for the source.

use vstd::prelude::*;
use crate::alias::{lookup, AliasTable};
use crate::fields::{blank_row, set_field_spec, Field, RowView, TrainingRow};
use crate::status::{classify, classify_spec, StatusClass};
use crate::text::{kept_lines, split_on, str_views};

verus! {

/// The fields of one line: the line split at every comma.
pub open spec fn fields_of(l: Seq<char>) -> Seq<Seq<char>> {
    split_on(l, ',')
}

/// One advisory diagnostic line.  Diagnostics are reported alongside the
/// partitions and never abort ingestion.
#[derive(Clone, Debug, PartialEq, Eq)]
pub enum Diagnostic {
    /// A header column no alias group claims; the column is ignored.
    UnrecognizedColumn { name: String },
    /// A data row that failed structural parsing, by 0-based data-row index.
    SkippedRow { row: usize },
    /// A data row whose status label is outside every known vocabulary.
    UnknownStatus { row: usize, status: String },
}

/// The mathematical shape of a diagnostic.
pub enum DiagView {
    UnrecognizedColumn { name: Seq<char> },
    SkippedRow { row: int },
    UnknownStatus { row: int, status: Seq<char> },
}

impl View for Diagnostic {
    type V = DiagView;

    open spec fn view(&self) -> DiagView {
        match self {
            Diagnostic::UnrecognizedColumn { name } => DiagView::UnrecognizedColumn {
                name: name@,
            },
            Diagnostic::SkippedRow { row } => DiagView::SkippedRow { row: row as int },
            Diagnostic::UnknownStatus { row, status } => DiagView::UnknownStatus {
                row: row as int,
                status: status@,
            },
        }
    }
}

/// The views of a sequence of records.
pub open spec fn row_views(s: Seq<TrainingRow>) -> Seq<RowView> {
    Seq::new(s.len(), |i: int| s[i]@)
}

/// The views of a sequence of diagnostics.
pub open spec fn diag_views(s: Seq<Diagnostic>) -> Seq<DiagView> {
    Seq::new(s.len(), |i: int| s[i]@)
}

/// The record built from the first `n` header/value pairs, and whether a
/// status column was seen among them.  Each header name resolves through
/// the alias table; unrecognized columns are dropped; a later column for
/// the same canonical field overwrites an earlier one.
pub open spec fn build_fields(
    t: Seq<(Seq<char>, Field)>,
    header: Seq<Seq<char>>,
    row: Seq<Seq<char>>,
    n: int,
) -> (RowView, bool)
    decreases n,
{
    if n <= 0 {
        (blank_row(), false)
    } else {
        let prev = build_fields(t, header, row, n - 1);
        match lookup(t, header[n - 1]) {
            Option::Some(f) => (
                set_field_spec(prev.0, f, row[n - 1]),
                prev.1 || f == Field::Status,
            ),
            Option::None => prev,
        }
    }
}

/// The canonical record of one data row, or `None` when the row fails
/// structural parsing: a value count different from the header's, or no
/// column that resolves to the required status field.
pub open spec fn record_of(
    t: Seq<(Seq<char>, Field)>,
    header: Seq<Seq<char>>,
    row: Seq<Seq<char>>,
) -> Option<RowView> {
    if header.len() != row.len() {
        Option::None
    } else {
        let built = build_fields(t, header, row, header.len() as int);
        if built.1 {
            Option::Some(built.0)
        } else {
            Option::None
        }
    }
}

/// Builds the canonical record of one data row, or reports that the row
/// fails structural parsing.
pub fn build_record(table: &AliasTable, header: &Vec<String>, row: &Vec<String>) -> (r: Option<
    TrainingRow,
>)
    ensures
        r matches Some(rec) ==> record_of(table@, str_views(header@), str_views(row@))
            == Some(rec@),
        r is None ==> record_of(table@, str_views(header@), str_views(row@)) is None,
{
    let ghost t = table@;
    let ghost hv = str_views(header@);
    let ghost rv = str_views(row@);
    if header.len() != row.len() {
        return Option::None;
    }
    let mut rec = TrainingRow::blank();
    let mut got_status = false;
    let mut i: usize = 0;
    while i < header.len()
        invariant
            i <= header.len() == row.len(),
            hv == str_views(header@),
            rv == str_views(row@),
            t == table@,
            (rec@, got_status) == build_fields(t, hv, rv, i as int),
        decreases header.len() - i,
    {
        match table.resolve(&header[i]) {
            Option::Some(f) => {
                rec.set_field(f, row[i].clone());
                if f == Field::Status {
                    got_status = true;
                }
            },
            Option::None => {},
        }
        i = i + 1;
    }
    if got_status {
        Option::Some(rec)
    } else {
        Option::None
    }
}

/// The diagnostics produced by scanning the first `n` header columns:
/// one per column that no alias group claims.
pub open spec fn header_diags(
    t: Seq<(Seq<char>, Field)>,
    header: Seq<Seq<char>>,
    n: int,
) -> Seq<DiagView>
    decreases n,
{
    if n <= 0 {
        Seq::empty()
    } else {
        let prev = header_diags(t, header, n - 1);
        if lookup(t, header[n - 1]) is None {
            prev.push(DiagView::UnrecognizedColumn { name: header[n - 1] })
        } else {
            prev
        }
    }
}

/// The mathematical result of ingesting one source.
pub struct IngestView {
    pub confirmed: Seq<RowView>,
    pub false_positive: Seq<RowView>,
    pub diagnostics: Seq<DiagView>,
    pub rows_read: int,
    pub dropped: int,
}

/// The result of ingesting the first `n` data rows: partitions in row
/// order, diagnostics in row order, and counts.  A structurally bad row is
/// skipped with a diagnostic; a candidate row is dropped silently; an
/// unknown status is dropped with a diagnostic.
pub open spec fn ingest_rows(
    t: Seq<(Seq<char>, Field)>,
    header: Seq<Seq<char>>,
    data: Seq<Seq<char>>,
    n: int,
) -> IngestView
    decreases n,
{
    if n <= 0 {
        IngestView {
            confirmed: Seq::empty(),
            false_positive: Seq::empty(),
            diagnostics: Seq::empty(),
            rows_read: 0,
            dropped: 0,
        }
    } else {
        let prev = ingest_rows(t, header, data, n - 1);
        match record_of(t, header, fields_of(data[n - 1])) {
            Option::None => IngestView {
                diagnostics: prev.diagnostics.push(DiagView::SkippedRow { row: n - 1 }),
                rows_read: prev.rows_read + 1,
                dropped: prev.dropped + 1,
                ..prev
            },
            Option::Some(r) => {
                if classify_spec(r.status) == StatusClass::Confirmed {
                    IngestView {
                        confirmed: prev.confirmed.push(r),
                        rows_read: prev.rows_read + 1,
                        ..prev
                    }
                } else if classify_spec(r.status) == StatusClass::FalsePositive {
                    IngestView {
                        false_positive: prev.false_positive.push(r),
                        rows_read: prev.rows_read + 1,
                        ..prev
                    }
                } else if classify_spec(r.status) == StatusClass::Candidate {
                    IngestView { rows_read: prev.rows_read + 1, dropped: prev.dropped + 1, ..prev }
                } else {
                    IngestView {
                        diagnostics: prev.diagnostics.push(
                            DiagView::UnknownStatus { row: n - 1, status: r.status },
                        ),
                        rows_read: prev.rows_read + 1,
                        dropped: prev.dropped + 1,
                        ..prev
                    }
                }
            },
        }
    }
}

/// Whether the source text has any line that is neither a comment nor
/// blank.
pub open spec fn has_lines(text: Seq<char>) -> bool {
    kept_lines(text).len() > 0
}

/// Whether some column among the first `n` header names resolves to the
/// canonical status field.
pub open spec fn status_in_prefix(
    t: Seq<(Seq<char>, Field)>,
    header: Seq<Seq<char>>,
    n: int,
) -> bool
    decreases n,
{
    if n <= 0 {
        false
    } else {
        status_in_prefix(t, header, n - 1) || lookup(t, header[n - 1]) == Option::Some(
            Field::Status,
        )
    }
}

/// Whether a header carries the required status field at all.
pub open spec fn header_has_status(t: Seq<(Seq<char>, Field)>, header: Seq<Seq<char>>) -> bool {
    status_in_prefix(t, header, header.len() as int)
}

/// Whether the source text has a header row: its first kept line must
/// resolve some column to the required status field.  A headerless export
/// whose first line is already a data row fails this test, so it is
/// rejected instead of silently consuming that row as a header.
pub open spec fn has_header(t: Seq<(Seq<char>, Field)>, text: Seq<char>) -> bool {
    has_lines(text) && header_has_status(t, fields_of(kept_lines(text)[0]))
}

/// The mathematical result of ingesting source text with a header: the
/// header is the first kept line, every later kept line is a data row, and
/// header diagnostics precede row diagnostics.
pub open spec fn ingest_spec(t: Seq<(Seq<char>, Field)>, text: Seq<char>) -> IngestView {
    let kept = kept_lines(text);
    let header = fields_of(kept[0]);
    let data = kept.drop_first();
    let base = ingest_rows(t, header, data, data.len() as int);
    IngestView { diagnostics: header_diags(t, header, header.len() as int) + base.diagnostics, ..base }
}

/// The partitions, diagnostics and counts of one ingested source.
pub struct IngestOutput {
    /// Rows classified as confirmed planets, in file order.
    pub confirmed: Vec<TrainingRow>,
    /// Rows classified as confirmed non-planets, in file order.
    pub false_positive: Vec<TrainingRow>,
    /// Advisory diagnostics: unrecognized columns, then per-row reports.
    pub diagnostics: Vec<Diagnostic>,
    /// How many data rows were read, in total.
    pub rows_read: usize,
    /// How many data rows entered neither partition.
    pub dropped: usize,
}

impl View for IngestOutput {
    type V = IngestView;

    open spec fn view(&self) -> IngestView {
        IngestView {
            confirmed: row_views(self.confirmed@),
            false_positive: row_views(self.false_positive@),
            diagnostics: diag_views(self.diagnostics@),
            rows_read: self.rows_read as int,
            dropped: self.dropped as int,
        }
    }
}

/// Why one source failed fatally.
#[derive(Clone, Copy, Debug, PartialEq, Eq, Structural)]
pub enum IngestError {
    /// The source has no header row: no non-comment, non-blank line at
    /// all, or a first kept line in which no column resolves to the
    /// required status field.
    MissingHeader,
}

/// Ingests one source's full text: skips comments and blanks, reads the
/// header, then resolves, classifies and partitions every data row.  The
/// only fatal failure is a missing header; every per-row problem is a
/// diagnostic.
pub fn ingest_source(table: &AliasTable, text: &str) -> (r: Result<IngestOutput, IngestError>)
    ensures
        r is Ok <==> has_header(table@, text@),
        r matches Ok(out) ==> out@ == ingest_spec(table@, text@),
        r matches Err(e) ==> e == IngestError::MissingHeader,
{
    let ghost t = table@;
    let ghost kept = kept_lines(text@);
    let lines = crate::text::content_lines(text);
    if lines.len() == 0 {
        return Result::Err(IngestError::MissingHeader);
    }
    let header = crate::text::split_str(lines[0].as_str(), ',');
    let ghost hv = fields_of(kept[0]);
    let ghost data = kept.drop_first();
    let mut diagnostics: Vec<Diagnostic> = Vec::new();
    let mut saw_status = false;
    let mut h: usize = 0;
    proof {
        assert(diag_views(diagnostics@) =~= header_diags(t, hv, 0));
    }
    while h < header.len()
        invariant
            h <= header.len(),
            t == table@,
            hv == str_views(header@),
            diag_views(diagnostics@) == header_diags(t, hv, h as int),
            saw_status == status_in_prefix(t, hv, h as int),
        decreases header.len() - h,
    {
        match table.resolve(&header[h]) {
            Option::None => {
                let d = Diagnostic::UnrecognizedColumn { name: header[h].clone() };
                proof {
                    assert(diag_views(diagnostics@.push(d)) =~= diag_views(diagnostics@).push(d@));
                }
                diagnostics.push(d);
            },
            Option::Some(f) => {
                if f == Field::Status {
                    saw_status = true;
                }
            },
        }
        h = h + 1;
    }
    if !saw_status {
        return Result::Err(IngestError::MissingHeader);
    }
    let mut confirmed: Vec<TrainingRow> = Vec::new();
    let mut false_positive: Vec<TrainingRow> = Vec::new();
    let mut rows_read: usize = 0;
    let mut dropped: usize = 0;
    let mut i: usize = 1;
    proof {
        assert(row_views(confirmed@) =~= Seq::<RowView>::empty());
        assert(row_views(false_positive@) =~= Seq::<RowView>::empty());
    }
    while i < lines.len()
        invariant
            1 <= i <= lines.len(),
            t == table@,
            str_views(lines@) == kept,
            str_views(header@) == hv,
            hv == fields_of(kept[0]),
            data == kept.drop_first(),
            row_views(confirmed@) == ingest_rows(t, hv, data, i - 1).confirmed,
            row_views(false_positive@) == ingest_rows(t, hv, data, i - 1).false_positive,
            diag_views(diagnostics@) == header_diags(t, hv, hv.len() as int) + ingest_rows(
                t,
                hv,
                data,
                i - 1,
            ).diagnostics,
            rows_read == ingest_rows(t, hv, data, i - 1).rows_read == i - 1,
            dropped == ingest_rows(t, hv, data, i - 1).dropped,
            dropped <= rows_read,
        decreases lines.len() - i,
    {
        let ghost n = i as int;
        proof {
            assert(data[n - 1] == kept[n]);
            assert(lines@[n]@ == kept[n]);
        }
        let fields = crate::text::split_str(lines[i].as_str(), ',');
        let rec_opt = build_record(table, &header, &fields);
        match rec_opt {
            Option::None => {
                let d = Diagnostic::SkippedRow { row: i - 1 };
                proof {
                    assert(diag_views(diagnostics@.push(d)) =~= diag_views(diagnostics@).push(d@));
                }
                diagnostics.push(d);
                dropped = dropped + 1;
            },
            Option::Some(rec) => {
                let c = classify(rec.status.as_str());
                if c == StatusClass::Confirmed {
                    proof {
                        assert(row_views(confirmed@.push(rec)) =~= row_views(confirmed@).push(
                            rec@,
                        ));
                    }
                    confirmed.push(rec);
                } else if c == StatusClass::FalsePositive {
                    proof {
                        assert(row_views(false_positive@.push(rec)) =~= row_views(
                            false_positive@,
                        ).push(rec@));
                    }
                    false_positive.push(rec);
                } else if c == StatusClass::Candidate {
                    dropped = dropped + 1;
                } else {
                    let d = Diagnostic::UnknownStatus { row: i - 1, status: rec.status.clone() };
                    proof {
                        assert(diag_views(diagnostics@.push(d)) =~= diag_views(diagnostics@).push(
                            d@,
                        ));
                    }
                    diagnostics.push(d);
                    dropped = dropped + 1;
                }
            },
        }
        rows_read = rows_read + 1;
        i = i + 1;
    }
    proof {
        assert(data.len() == kept.len() - 1);
    }
    Result::Ok(
        IngestOutput { confirmed, false_positive, diagnostics, rows_read, dropped },
    )
}

/// Ingestion reads only the data rows it is given: two data sequences
/// that agree on their first `n` rows ingest identically.
proof fn lemma_ingest_rows_congruence(
    t: Seq<(Seq<char>, Field)>,
    header: Seq<Seq<char>>,
    d1: Seq<Seq<char>>,
    d2: Seq<Seq<char>>,
    n: int,
)
    requires
        forall|k: int| 0 <= k < n ==> d1[k] == d2[k],
    ensures
        ingest_rows(t, header, d1, n) == ingest_rows(t, header, d2, n),
    decreases n,
{
    if n > 0 {
        lemma_ingest_rows_congruence(t, header, d1, d2, n - 1);
    }
}

/// A structurally unparseable data row fails alone, never the run: both
/// partitions are exactly what they would be with that row absent — every
/// other row, before or after it, is still ingested and routed normally —
/// and only the dropped count and the diagnostics record it.
pub proof fn lemma_bad_row_skipped_alone(
    t: Seq<(Seq<char>, Field)>,
    header: Seq<Seq<char>>,
    data: Seq<Seq<char>>,
    j: int,
    n: int,
)
    requires
        0 <= j < n <= data.len(),
        record_of(t, header, fields_of(data[j])) is None,
    ensures
        ingest_rows(t, header, data, n).confirmed == ingest_rows(
            t,
            header,
            data.remove(j),
            n - 1,
        ).confirmed,
        ingest_rows(t, header, data, n).false_positive == ingest_rows(
            t,
            header,
            data.remove(j),
            n - 1,
        ).false_positive,
        ingest_rows(t, header, data, n).dropped == ingest_rows(
            t,
            header,
            data.remove(j),
            n - 1,
        ).dropped + 1,
        ingest_rows(t, header, data, n).rows_read == ingest_rows(
            t,
            header,
            data.remove(j),
            n - 1,
        ).rows_read + 1,
    decreases n,
{
    let rem = data.remove(j);
    if n - 1 == j {
        assert forall|k: int| 0 <= k < n - 1 implies rem[k] == data[k] by {
            assert(rem[k] == data[k]);
        }
        lemma_ingest_rows_congruence(t, header, rem, data, n - 1);
    } else {
        lemma_bad_row_skipped_alone(t, header, data, j, n - 1);
        assert(rem[n - 2] == data[n - 1]);
    }
}

/// The views of one exported row's key/value pairs.
pub open spec fn pair_views(s: Seq<(String, String)>) -> Seq<(Seq<char>, Seq<char>)> {
    Seq::new(s.len(), |i: int| (s[i].0@, s[i].1@))
}

/// The views of a sequence of exported rows.
pub open spec fn export_views(s: Seq<Vec<(String, String)>>) -> Seq<Seq<(Seq<char>, Seq<char>)>> {
    Seq::new(s.len(), |i: int| pair_views(s[i]@))
}

/// One data row keyed by the raw header names, position by position.
pub open spec fn zip_pairs(header: Seq<Seq<char>>, row: Seq<Seq<char>>) -> Seq<
    (Seq<char>, Seq<char>),
> {
    Seq::new(header.len(), |i: int| (header[i], row[i]))
}

/// The header-keyed export of the first `n` data rows; a row whose value
/// count differs from the header's is skipped.
pub open spec fn export_rows(header: Seq<Seq<char>>, data: Seq<Seq<char>>, n: int) -> Seq<
    Seq<(Seq<char>, Seq<char>)>,
>
    decreases n,
{
    if n <= 0 {
        Seq::empty()
    } else {
        let prev = export_rows(header, data, n - 1);
        let fs = fields_of(data[n - 1]);
        if fs.len() == header.len() {
            prev.push(zip_pairs(header, fs))
        } else {
            prev
        }
    }
}

/// The header-keyed export of a whole source with a header.
pub open spec fn export_spec(text: Seq<char>) -> Seq<Seq<(Seq<char>, Seq<char>)>> {
    let kept = kept_lines(text);
    export_rows(fields_of(kept[0]), kept.drop_first(), kept.len() - 1)
}

/// Exports one source's data rows as raw-header-keyed pairs, in file
/// order: the debugging flat-export, not part of the training pipeline.
pub fn export_pairs(text: &str) -> (r: Result<Vec<Vec<(String, String)>>, IngestError>)
    ensures
        r is Ok <==> has_lines(text@),
        r matches Ok(rows) ==> export_views(rows@) == export_spec(text@),
        r matches Err(e) ==> e == IngestError::MissingHeader,
{
    let lines = crate::text::content_lines(text);
    if lines.len() == 0 {
        return Result::Err(IngestError::MissingHeader);
    }
    let header = crate::text::split_str(lines[0].as_str(), ',');
    let ghost kept = kept_lines(text@);
    let ghost hv = fields_of(kept[0]);
    let ghost data = kept.drop_first();
    let mut out: Vec<Vec<(String, String)>> = Vec::new();
    let mut i: usize = 1;
    proof {
        assert(export_views(out@) =~= export_rows(hv, data, 0));
    }
    while i < lines.len()
        invariant
            1 <= i <= lines.len(),
            str_views(lines@) == kept,
            str_views(header@) == hv,
            hv == fields_of(kept[0]),
            data == kept.drop_first(),
            export_views(out@) == export_rows(hv, data, i - 1),
        decreases lines.len() - i,
    {
        proof {
            assert(data[i - 1] == kept[i as int]);
            assert(lines@[i as int]@ == kept[i as int]);
        }
        let fields = crate::text::split_str(lines[i].as_str(), ',');
        if fields.len() == header.len() {
            let ghost zp = zip_pairs(hv, str_views(fields@));
            let mut pairs: Vec<(String, String)> = Vec::new();
            let mut c: usize = 0;
            proof {
                assert(pair_views(pairs@) =~= zp.take(0));
            }
            while c < header.len()
                invariant
                    c <= header.len() == fields.len(),
                    str_views(header@) == hv,
                    zp == zip_pairs(hv, str_views(fields@)),
                    pair_views(pairs@) == zp.take(c as int),
                decreases header.len() - c,
            {
                let p = (header[c].clone(), fields[c].clone());
                proof {
                    assert(pair_views(pairs@.push(p)) =~= pair_views(pairs@).push((p.0@, p.1@)));
                    assert(zp.take(c + 1) =~= zp.take(c as int).push(zp[c as int]));
                }
                pairs.push(p);
                c = c + 1;
            }
            proof {
                assert(zp.take(hv.len() as int) =~= zp);
                assert(export_views(out@.push(pairs)) =~= export_views(out@).push(
                    pair_views(pairs@),
                ));
            }
            out.push(pairs);
        }
        i = i + 1;
    }
    Result::Ok(out)
}

/// The partitions are pure: every record routed to the confirmed
/// partition classifies as confirmed, and every record routed to the
/// false-positive partition classifies as false positive — so a
/// candidate-labeled or unknown-labeled row never enters either.
pub proof fn lemma_partitions_pure(
    t: Seq<(Seq<char>, Field)>,
    header: Seq<Seq<char>>,
    data: Seq<Seq<char>>,
    n: int,
)
    ensures
        forall|j: int|
            0 <= j < ingest_rows(t, header, data, n).confirmed.len() ==> classify_spec(
                ingest_rows(t, header, data, n).confirmed[j].status,
            ) == StatusClass::Confirmed,
        forall|j: int|
            0 <= j < ingest_rows(t, header, data, n).false_positive.len() ==> classify_spec(
                ingest_rows(t, header, data, n).false_positive[j].status,
            ) == StatusClass::FalsePositive,
    decreases n,
{
    if n > 0 {
        lemma_partitions_pure(t, header, data, n - 1);
    }
}

/// The partition purity of a whole ingested source.
pub proof fn lemma_ingest_candidates_excluded(t: Seq<(Seq<char>, Field)>, text: Seq<char>)
    ensures
        forall|j: int|
            0 <= j < ingest_spec(t, text).confirmed.len() ==> classify_spec(
                ingest_spec(t, text).confirmed[j].status,
            ) == StatusClass::Confirmed,
        forall|j: int|
            0 <= j < ingest_spec(t, text).false_positive.len() ==> classify_spec(
                ingest_spec(t, text).false_positive[j].status,
            ) == StatusClass::FalsePositive,
{
    let kept = kept_lines(text);
    lemma_partitions_pure(t, fields_of(kept[0]), kept.drop_first(), kept.drop_first().len() as int);
}

/// Every data row is accounted for exactly once: the two partition sizes
/// and the dropped count sum to the number of rows read.
pub proof fn lemma_ingest_counts(
    t: Seq<(Seq<char>, Field)>,
    header: Seq<Seq<char>>,
    data: Seq<Seq<char>>,
    n: int,
)
    requires
        n >= 0,
    ensures
        ingest_rows(t, header, data, n).rows_read == n,
        ingest_rows(t, header, data, n).dropped >= 0,
        ingest_rows(t, header, data, n).confirmed.len() + ingest_rows(
            t,
            header,
            data,
            n,
        ).false_positive.len() + ingest_rows(t, header, data, n).dropped == n,
    decreases n,
{
    if n > 0 {
        lemma_ingest_counts(t, header, data, n - 1);
    }
}

/// The row accounting of a whole ingested source: every data row after
/// the header is read, and lands in exactly one of the confirmed
/// partition, the false-positive partition, or the dropped count.
pub proof fn lemma_ingest_spec_counts(t: Seq<(Seq<char>, Field)>, text: Seq<char>)
    requires
        has_lines(text),
    ensures
        ingest_spec(t, text).rows_read == kept_lines(text).len() - 1,
        ingest_spec(t, text).confirmed.len() + ingest_spec(t, text).false_positive.len()
            + ingest_spec(t, text).dropped == ingest_spec(t, text).rows_read,
{
    let kept = kept_lines(text);
    lemma_ingest_counts(t, fields_of(kept[0]), kept.drop_first(), kept.drop_first().len() as int);
}

} // verus!
