//! Rendering a diagnostic through the report engine.
use vstd::prelude::*;
use vstd::string::StringSliceAdditionalSpecFns;
use ariadne::Color;
use crate::diagnostic::{
    labels_of, labels_view, location_of, message_of, opt_view, report_of, DiagnosticRecord,
    Instance, LabelEntry,
};
use crate::engine::{spans_fit, Draft, EngineReport, ReportModel};
use crate::schema::{IndexUnit, Schema, SourceSpan};

verus! {

/// Why a diagnostic was not rendered.
#[derive(Debug)]
pub enum RenderError {
    /// The instance resolves no location or no message.
    MissingRequiredField,
    /// The report engine failed to write.
    Io(std::io::Error),
}

/// Every span in `ls` starts no later than it ends.
pub open spec fn spans_ordered(ls: Seq<(Color, Seq<char>, SourceSpan)>) -> bool {
    forall|i: int| 0 <= i < ls.len() ==> (#[trigger] ls[i]).2.start <= ls[i].2.end
}

/// A record with what every report needs: a location and a message.
pub open spec fn complete(rec: DiagnosticRecord) -> bool {
    rec.location is Some && rec.message is Some
}

/// Whether the engine can take the spans of `rec` against a source of
/// UTF-8 bytes `src`: labels run forwards, and under byte offsets every
/// offset falls on a character boundary.
pub open spec fn record_fits(rec: DiagnosticRecord, src: Seq<u8>) -> bool {
    &&& spans_ordered(labels_view(rec.labels@))
    &&& match rec.location {
        Some(l) => spans_fit(rec.config, l, labels_view(rec.labels@), src),
        None => true,
    }
}

/// What a complete record hands to the engine for the file named `file`.
pub open spec fn record_model(rec: DiagnosticRecord, file: Seq<char>) -> ReportModel {
    ReportModel {
        kind: rec.kind,
        file,
        span: rec.location.unwrap(),
        message: opt_view(rec.message),
        code: rec.code,
        config: rec.config,
        labels: labels_view(rec.labels@),
        notes: match rec.note {
            Some(n) => seq![n@],
            None => Seq::empty(),
        },
    }
}

/// Tells whether every label's span starts no later than it ends, which the
/// engine demands of a label.
pub fn labels_ordered(labels: &Vec<LabelEntry>) -> (r: bool)
    ensures
        r == spans_ordered(labels_view(labels@)),
{
    let mut i: usize = 0;
    while i < labels.len()
        invariant
            i <= labels@.len(),
            forall|q: int| 0 <= q < i ==> (#[trigger] labels@[q]).span.start <= labels@[q].span.end,
        decreases labels@.len() - i,
    {
        if labels[i].span.start > labels[i].span.end {
            assert(labels_view(labels@)[i as int] == labels@[i as int]@);
            return false;
        }
        i = i + 1;
    }
    assert forall|q: int| 0 <= q < labels_view(labels@).len() implies (#[trigger] labels_view(
        labels@,
    )[q]).2.start <= labels_view(labels@)[q].2.end by {
        assert(labels_view(labels@)[q] == labels@[q]@);
    }
    true
}

/// Tells whether the engine can take the spans of `rec` against `source`.
pub fn fits_source(rec: &DiagnosticRecord, source: &str) -> (r: bool)
    ensures
        r == record_fits(*rec, source.spec_bytes()),
{
    if !labels_ordered(&rec.labels) {
        return false;
    }
    let location = match rec.location {
        Some(l) => l,
        None => {
            return true;
        },
    };
    let bytes = match rec.config {
        Some(c) => match c.index_unit {
            IndexUnit::Byte => true,
            IndexUnit::Char => false,
        },
        None => false,
    };
    if !bytes {
        return true;
    }
    if !source.is_char_boundary(location.start) {
        assert(!spans_fit(rec.config, location, labels_view(rec.labels@), source.spec_bytes()));
        return false;
    }
    let mut i: usize = 0;
    while i < rec.labels.len()
        invariant
            i <= rec.labels@.len(),
            rec.location == Some(location),
            rec.config matches Some(c) && c.index_unit == IndexUnit::Byte,
            forall|q: int|
                0 <= q < i ==> {
                    &&& vstd::utf8::is_char_boundary(
                        source.spec_bytes(),
                        (#[trigger] rec.labels@[q]).span.start as int,
                    )
                    &&& vstd::utf8::is_char_boundary(
                        source.spec_bytes(),
                        rec.labels@[q].span.end as int,
                    )
                },
        decreases rec.labels@.len() - i,
    {
        let s = rec.labels[i].span;
        if !source.is_char_boundary(s.start) || !source.is_char_boundary(s.end) {
            assert(labels_view(rec.labels@)[i as int] == rec.labels@[i as int]@);
            assert(!spans_fit(rec.config, location, labels_view(rec.labels@), source.spec_bytes()));
            return false;
        }
        i = i + 1;
    }
    assert forall|q: int| 0 <= q < labels_view(rec.labels@).len() implies {
        &&& vstd::utf8::is_char_boundary(
            source.spec_bytes(),
            (#[trigger] labels_view(rec.labels@)[q]).2.start as int,
        )
        &&& vstd::utf8::is_char_boundary(
            source.spec_bytes(),
            labels_view(rec.labels@)[q].2.end as int,
        )
    } by {
        assert(labels_view(rec.labels@)[q] == rec.labels@[q]@);
    }
    true
}

/// Hands a complete record to the engine as one report for the file named
/// `filename`: kind and location first, then the message, the code and the
/// settings where present, every label in order, and the note where present.
/// An incomplete record gives `None` before the engine is called at all.
pub fn build_report(rec: DiagnosticRecord, filename: &str) -> (r: Option<EngineReport>)
    requires
        complete(rec) ==> spans_ordered(labels_view(rec.labels@)),
    ensures
        r is None <==> !complete(rec),
        match r {
            Some(rep) => rep.model() == record_model(rec, filename@),
            None => true,
        },
{
    let location = match rec.location {
        Some(l) => l,
        None => {
            return None;
        },
    };
    let message = match rec.message {
        Some(m) => m,
        None => {
            return None;
        },
    };
    let ghost target = record_model(rec, filename@);
    let mut draft = Draft::start(rec.kind, filename, location);
    draft = draft.message(message);
    match rec.code {
        Some(code) => {
            draft = draft.code(code);
        },
        None => {},
    }
    match rec.config {
        Some(config) => {
            draft = draft.config(config);
        },
        None => {},
    }
    let labels = rec.labels;
    let mut i: usize = 0;
    assert(labels_view(labels@).take(0) =~= Seq::<(Color, Seq<char>, SourceSpan)>::empty());
    assert(draft.model() == (ReportModel {
        labels: labels_view(labels@).take(0),
        notes: Seq::empty(),
        ..target
    }));
    while i < labels.len()
        invariant
            i <= labels@.len(),
            labels@ == rec.labels@,
            spans_ordered(labels_view(labels@)),
            target.file == filename@,
            draft.model().file == filename@,
            draft.model() == (ReportModel {
                labels: labels_view(labels@).take(i as int),
                notes: Seq::empty(),
                ..target
            }),
        decreases labels@.len() - i,
    {
        let l = &labels[i];
        assert(labels_view(labels@)[i as int] == labels@[i as int]@);
        draft = draft.label(filename, l.color, l.message.clone(), l.span);
        assert(labels_view(labels@).take(i + 1) =~= labels_view(labels@).take(i as int).push(
            l@,
        ));
        i = i + 1;
    }
    assert(labels_view(labels@).take(i as int) =~= labels_view(labels@));
    match rec.note {
        Some(note) => {
            draft = draft.note(note);
            assert(draft.model().notes =~= target.notes);
        },
        None => {},
    }
    Some(draft.finish())
}

/// Lays out `rec` against the text `source` of the file named `filename`.
///
/// Succeeds exactly when the record has a location and a message; otherwise
/// fails with `MissingRequiredField` before the engine is called. The report
/// laid out is the one that `build_report` describes.
pub fn emit(rec: DiagnosticRecord, filename: &str, source: &str) -> (r: Result<
    Vec<u8>,
    RenderError,
>)
    requires
        complete(rec) ==> record_fits(rec, source.spec_bytes()),
    ensures
        r is Ok <==> complete(rec),
        (r matches Err(RenderError::MissingRequiredField)) <==> !complete(rec),
{
    let ghost file = filename@;
    match build_report(rec, filename) {
        None => Err(RenderError::MissingRequiredField),
        Some(report) => {
            assert(report.model().file == file);
            match report.write(filename, source) {
                Ok(bytes) => Ok(bytes),
                Err(e) => Err(RenderError::Io(e)),
            }
        },
    }
}

impl Schema {
    /// Renders the diagnostic of `inst` against the text `source` of the file
    /// named `filename`, and returns the laid-out report.
    ///
    /// Succeeds exactly when the instance resolves a location and a message;
    /// otherwise fails with `MissingRequiredField` without calling the engine.
    pub fn render(&self, inst: &Instance, filename: &str, source: &str) -> (r: Result<
        Vec<u8>,
        RenderError,
    >)
        requires
            self.wf(),
            self.admits(*inst),
            location_of(self.case_of(*inst), inst.fields@) is Some && message_of(
                self.case_of(*inst),
                inst.fields@,
            ) is Some ==> {
                &&& spans_ordered(labels_of(self.case_of(*inst), inst.fields@))
                &&& spans_fit(
                    report_of(self.case_of(*inst)).config,
                    location_of(self.case_of(*inst), inst.fields@).unwrap(),
                    labels_of(self.case_of(*inst), inst.fields@),
                    source.spec_bytes(),
                )
            },
        ensures
            r is Ok <==> (location_of(self.case_of(*inst), inst.fields@) is Some && message_of(
                self.case_of(*inst),
                inst.fields@,
            ) is Some),
            (r matches Err(RenderError::MissingRequiredField)) <==> (location_of(
                self.case_of(*inst),
                inst.fields@,
            ) is None || message_of(self.case_of(*inst), inst.fields@) is None),
    {
        let rec = self.assemble(inst);
        emit(rec, filename, source)
    }
}

} // verus!
