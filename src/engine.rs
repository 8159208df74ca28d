//! The report engine, `ariadne`, as the library sees it.
//!
//! Its colour type is visible to proofs. Its builders and reports are opaque
//! values; beside each, the library keeps a record of everything it has
//! handed to the engine for that report, in order.
use vstd::prelude::*;
use vstd::string::StringSliceAdditionalSpecFns;
use std::ops::Range;
use ariadne::Color;
use crate::schema::{IndexUnit, RenderConfig, Severity, SourceSpan};

verus! {

#[verifier::external_type_specification]
pub struct ExColor(ariadne::Color);

/// Relies on the `Clone` that yansi derives beside `Copy` for its colours:
/// the clone is the colour itself.
pub assume_specification[ <ariadne::Color as Clone>::clone ](c: &ariadne::Color) -> (r:
    ariadne::Color)
    ensures
        r == *c,
;

#[verifier::external_type_specification]
#[verifier::external_body]
pub struct ExIoError(std::io::Error);

/// A span of a named source, as the engine takes it.
pub type Located = (String, Range<usize>);

/// A report under construction: ariadne's builder, which Verus cannot
/// declare (its span parameter is bound by ariadne's own `Span` trait).
#[verifier::external_body]
pub struct ReportDraft {
    builder: ariadne::ReportBuilder<'static, Located>,
}

/// A finished report, ready to be laid out against its source.
#[verifier::external_body]
pub struct FinishedReport {
    report: ariadne::Report<'static, Located>,
}

/// What the library has handed to the engine for one report: the kind, the
/// file and primary span it was started with, the headline, the code and
/// settings if given, the labels and the notes in the order they were added.
pub struct ReportModel {
    pub kind: Severity,
    pub file: Seq<char>,
    pub span: SourceSpan,
    pub message: Option<Seq<char>>,
    pub code: Option<usize>,
    pub config: Option<RenderConfig>,
    pub labels: Seq<(Color, Seq<char>, SourceSpan)>,
    pub notes: Seq<Seq<char>>,
}

/// A report under construction, with its record.
pub struct Draft {
    draft: ReportDraft,
    model: Ghost<ReportModel>,
}

/// A finished report, with the record of what built it.
pub struct EngineReport {
    report: FinishedReport,
    model: Ghost<ReportModel>,
}

impl Draft {
    pub closed spec fn model(&self) -> ReportModel {
        self.model@
    }

    /// Starts a report of `kind` anchored at `span` of the source `file`.
    pub fn start(kind: Severity, file: &str, span: SourceSpan) -> (r: Draft)
        ensures
            r.model() == (ReportModel {
                kind,
                file: file@,
                span,
                message: None,
                code: None,
                config: None,
                labels: Seq::empty(),
                notes: Seq::empty(),
            }),
    {
        Draft {
            draft: start_report(kind, file, span),
            model: Ghost(
                ReportModel {
                    kind,
                    file: file@,
                    span,
                    message: None,
                    code: None,
                    config: None,
                    labels: Seq::empty(),
                    notes: Seq::empty(),
                },
            ),
        }
    }

    pub fn message(self, msg: String) -> (r: Draft)
        ensures
            r.model() == (ReportModel { message: Some(msg@), ..self.model() }),
    {
        let ghost m = ReportModel { message: Some(msg@), ..self.model() };
        Draft { draft: report_message(self.draft, msg), model: Ghost(m) }
    }

    pub fn code(self, code: usize) -> (r: Draft)
        ensures
            r.model() == (ReportModel { code: Some(code), ..self.model() }),
    {
        Draft {
            draft: report_code(self.draft, code),
            model: Ghost(ReportModel { code: Some(code), ..self.model() }),
        }
    }

    pub fn config(self, config: RenderConfig) -> (r: Draft)
        ensures
            r.model() == (ReportModel { config: Some(config), ..self.model() }),
    {
        Draft {
            draft: report_config(self.draft, config),
            model: Ghost(ReportModel { config: Some(config), ..self.model() }),
        }
    }

    /// Appends a label over `span` of the source the report was started on.
    pub fn label(self, file: &str, color: Color, msg: String, span: SourceSpan) -> (r: Draft)
        requires
            span.start <= span.end,
            file@ == self.model().file,
        ensures
            r.model() == (ReportModel {
                labels: self.model().labels.push((color, msg@, span)),
                ..self.model()
            }),
    {
        let ghost m = ReportModel {
            labels: self.model().labels.push((color, msg@, span)),
            ..self.model()
        };
        Draft { draft: report_label(self.draft, file, color, msg, span), model: Ghost(m) }
    }

    pub fn note(self, note: String) -> (r: Draft)
        ensures
            r.model() == (ReportModel { notes: self.model().notes.push(note@), ..self.model() }),
    {
        let ghost m = ReportModel { notes: self.model().notes.push(note@), ..self.model() };
        Draft { draft: report_note(self.draft, note), model: Ghost(m) }
    }

    pub fn finish(self) -> (r: EngineReport)
        ensures
            r.model() == self.model(),
    {
        EngineReport { report: finish_report(self.draft), model: self.model }
    }
}

/// Whether the engine may lay out a report of model `m` against a source of
/// UTF-8 bytes `src` without failing: when offsets count bytes, the primary
/// span starts, and every label starts and ends, on a character boundary of
/// the source (so within it).
pub open spec fn fits(m: ReportModel, src: Seq<u8>) -> bool {
    spans_fit(m.config, m.span, m.labels, src)
}

pub open spec fn spans_fit(
    config: Option<RenderConfig>,
    primary: SourceSpan,
    labels: Seq<(Color, Seq<char>, SourceSpan)>,
    src: Seq<u8>,
) -> bool {
    (config matches Some(c) && c.index_unit == IndexUnit::Byte) ==> {
        &&& vstd::utf8::is_char_boundary(src, primary.start as int)
        &&& forall|i: int|
            0 <= i < labels.len() ==> {
                &&& vstd::utf8::is_char_boundary(src, (#[trigger] labels[i]).2.start as int)
                &&& vstd::utf8::is_char_boundary(src, labels[i].2.end as int)
            }
    }
}

impl EngineReport {
    pub closed spec fn model(&self) -> ReportModel {
        self.model@
    }

    /// Relies on `ariadne::Report::write` into a byte vector: lays the report
    /// out against `source`, the text of the file it was started on. Its only
    /// errors are the writer's, and writing to a vector does not fail (a
    /// source it cannot fetch is reported on stderr and skipped). Under byte
    /// offsets it slices the source's lines at the spans, hence `fits`.
    #[verifier::external_body]
    pub(crate) fn write(&self, file: &str, source: &str) -> (r: Result<Vec<u8>, std::io::Error>)
        requires
            file@ == self.model().file,
            fits(self.model(), source.spec_bytes()),
        ensures
            r is Ok,
    {
        let mut out: Vec<u8> = Vec::new();
        let cache = (file.to_string(), ariadne::Source::from(source.to_string()));
        self.report.report.write(cache, &mut out).map(|_| out)
    }
}

/// Relies on `ariadne::Report::build`: a report of the given kind, anchored
/// at `span` of the source `file`.
#[verifier::external_body]
fn start_report(kind: Severity, file: &str, span: SourceSpan) -> ReportDraft {
    let kind = match kind {
        Severity::Error => ariadne::ReportKind::Error,
        Severity::Warning => ariadne::ReportKind::Warning,
        Severity::Advice => ariadne::ReportKind::Advice,
    };
    ReportDraft { builder: ariadne::Report::build(kind, (file.to_string(), span.start..span.end)) }
}

/// Relies on `ariadne::ReportBuilder::with_message`: sets the headline.
#[verifier::external_body]
fn report_message(b: ReportDraft, msg: String) -> ReportDraft {
    ReportDraft { builder: b.builder.with_message(msg) }
}

/// Relies on `ariadne::ReportBuilder::with_code`: sets the numeric code.
#[verifier::external_body]
fn report_code(b: ReportDraft, code: usize) -> ReportDraft {
    ReportDraft { builder: b.builder.with_code(code) }
}

/// Relies on `ariadne::ReportBuilder::with_config`: replaces the settings
/// with ariadne's defaults but for the index unit, compactness and colour.
#[verifier::external_body]
fn report_config(b: ReportDraft, config: RenderConfig) -> ReportDraft {
    let unit = match config.index_unit {
        IndexUnit::Byte => ariadne::IndexType::Byte,
        IndexUnit::Char => ariadne::IndexType::Char,
    };
    let c = ariadne::Config::default().with_index_type(unit).with_compact(config.compact);
    ReportDraft { builder: b.builder.with_config(c.with_color(config.color)) }
}

/// Relies on `ariadne::ReportBuilder::with_label`: appends, after those
/// already added, the label that `ariadne::Label::new` (which panics on a
/// span ending before it starts) makes of the span, message and colour.
#[verifier::external_body]
fn report_label(b: ReportDraft, file: &str, color: Color, msg: String, span: SourceSpan) -> ReportDraft
    requires
        span.start <= span.end,
{
    let label = ariadne::Label::new((file.to_string(), span.start..span.end));
    ReportDraft { builder: b.builder.with_label(label.with_message(msg).with_color(color)) }
}

/// Relies on `ariadne::ReportBuilder::with_note`: appends a note.
#[verifier::external_body]
fn report_note(b: ReportDraft, note: String) -> ReportDraft {
    ReportDraft { builder: b.builder.with_note(note) }
}

/// Relies on `ariadne::ReportBuilder::finish`: the finished report.
#[verifier::external_body]
fn finish_report(b: ReportDraft) -> FinishedReport {
    FinishedReport { report: b.builder.finish() }
}

} // verus!
