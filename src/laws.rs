//! What holds of the accessors over every case and every instance.
use vstd::prelude::*;
use ariadne::Color;
use crate::diagnostic::{
    apply_setting, arg_texts, default_meta, field_color, field_labels, first_report, first_template, has_here,
    labels_of, labels_upto, labels_view, locate, location_of, message_of, note_of, opt_view,
    report_of, resolve, settle, span_of, value_text, LabelEntry, ReportMeta,
};
use crate::schema::{CaseAnnotation, CaseDecl, FieldAnnotation, FieldDecl, ReportSetting, SourceSpan, Template, Value};

verus! {

proof fn lemma_no_template(anns: Seq<CaseAnnotation>, note: bool)
    requires
        forall|k: int|
            0 <= k < anns.len() ==> if note {
                !(#[trigger] anns[k] is Note)
            } else {
                !(anns[k] is Message)
            },
    ensures
        first_template(anns, note) is None,
    decreases anns.len(),
{
    if anns.len() > 0 {
        assert(forall|k: int| 0 <= k < anns.len() - 1 ==> anns.skip(1)[k] == anns[k + 1]);
        lemma_no_template(anns.skip(1), note);
    }
}

proof fn lemma_no_report(anns: Seq<CaseAnnotation>)
    requires
        forall|k: int| 0 <= k < anns.len() ==> !(#[trigger] anns[k] is Report),
    ensures
        first_report(anns) is None,
    decreases anns.len(),
{
    if anns.len() > 0 {
        assert(forall|k: int| 0 <= k < anns.len() - 1 ==> anns.skip(1)[k] == anns[k + 1]);
        lemma_no_report(anns.skip(1));
    }
}

proof fn lemma_settle_keeps(s: Seq<ReportSetting>, m: ReportMeta)
    ensures
        (forall|k: int| 0 <= k < s.len() ==> !(#[trigger] s[k] is Kind)) ==> settle(s, m).kind
            == m.kind,
        (forall|k: int| 0 <= k < s.len() ==> !(#[trigger] s[k] is Code)) ==> settle(s, m).code
            == m.code,
        (forall|k: int| 0 <= k < s.len() ==> !(#[trigger] s[k] is Config)) ==> settle(
            s,
            m,
        ).config == m.config,
    decreases s.len(),
{
    if s.len() > 0 {
        assert(forall|k: int| 0 <= k < s.len() - 1 ==> s.skip(1)[k] == s[k + 1]);
        lemma_settle_keeps(s.skip(1), apply_setting(m, s[0]));
    }
}

proof fn lemma_locate_none(fields: Seq<FieldDecl>, j: int)
    requires
        0 <= j,
        forall|i: int| j <= i < fields.len() ==> !has_here(#[trigger] fields[i]),
    ensures
        locate(fields, j) is None,
    decreases fields.len() - j,
{
    if j < fields.len() {
        lemma_locate_none(fields, j + 1);
    }
}

proof fn lemma_field_no_labels(
    anns: Seq<FieldAnnotation>,
    color: Color,
    span: SourceSpan,
    vals: Seq<Value>,
)
    requires
        forall|k: int| 0 <= k < anns.len() ==> !(#[trigger] anns[k] is Label),
    ensures
        field_labels(anns, color, span, vals).len() == 0,
    decreases anns.len(),
{
    if anns.len() > 0 {
        assert(forall|k: int| 0 <= k < anns.len() - 1 ==> anns.skip(1)[k] == anns[k + 1]);
        lemma_field_no_labels(anns.skip(1), color, span, vals);
    }
}

proof fn lemma_no_labels(fields: Seq<FieldDecl>, n: int, vals: Seq<Value>)
    requires
        n <= fields.len(),
        forall|j: int, k: int|
            0 <= j < fields.len() && 0 <= k < fields[j].annotations@.len() ==> !(
            #[trigger] fields[j].annotations@[k] is Label),
    ensures
        labels_upto(fields, n, vals).len() == 0,
    decreases n,
{
    if n > 0 {
        lemma_no_labels(fields, n - 1, vals);
        let anns = fields[n - 1].annotations@;
        assert(forall|k: int| 0 <= k < anns.len() ==> !(#[trigger] anns[k] is Label));
        lemma_field_no_labels(anns, field_color(anns), span_of(vals[n - 1]), vals);
    }
}

/// A case that declares no annotation of some kind gets that kind's default:
/// no message, no note, no location, no labels; without a report annotation,
/// or with one that leaves a key unset, the kind is `Error` and the code and
/// the settings are absent.
pub proof fn law_defaults(c: CaseDecl, vals: Seq<Value>)
    ensures
        (forall|k: int| 0 <= k < c.annotations@.len() ==> !(#[trigger] c.annotations@[k] is Message))
            ==> message_of(c, vals) is None,
        (forall|k: int| 0 <= k < c.annotations@.len() ==> !(#[trigger] c.annotations@[k] is Note))
            ==> note_of(c, vals) is None,
        (forall|k: int| 0 <= k < c.annotations@.len() ==> !(#[trigger] c.annotations@[k] is Report))
            ==> report_of(c) == default_meta(),
        forall|s: Seq<ReportSetting>|
            first_report(c.annotations@) == Some(s) ==> {
                &&& (forall|k: int| 0 <= k < s.len() ==> !(#[trigger] s[k] is Kind))
                    ==> report_of(c).kind == crate::schema::Severity::Error
                &&& (forall|k: int| 0 <= k < s.len() ==> !(#[trigger] s[k] is Code))
                    ==> report_of(c).code is None
                &&& (forall|k: int| 0 <= k < s.len() ==> !(#[trigger] s[k] is Config))
                    ==> report_of(c).config is None
            },
        (forall|j: int| 0 <= j < c.fields@.len() ==> !has_here(#[trigger] c.fields@[j]))
            ==> location_of(c, vals) is None,
        (forall|j: int, k: int|
            0 <= j < c.fields@.len() && 0 <= k < c.fields@[j].annotations@.len() ==> !(
            #[trigger] c.fields@[j].annotations@[k] is Label)) ==> labels_of(c, vals).len() == 0,
{
    let anns = c.annotations@;
    if forall|k: int| 0 <= k < anns.len() ==> !(#[trigger] anns[k] is Message) {
        lemma_no_template(anns, false);
    }
    if forall|k: int| 0 <= k < anns.len() ==> !(#[trigger] anns[k] is Note) {
        lemma_no_template(anns, true);
    }
    if forall|k: int| 0 <= k < anns.len() ==> !(#[trigger] anns[k] is Report) {
        lemma_no_report(anns);
    }
    assert forall|s: Seq<ReportSetting>| first_report(c.annotations@) == Some(s) implies {
        &&& (forall|k: int| 0 <= k < s.len() ==> !(#[trigger] s[k] is Kind))
            ==> report_of(c).kind == crate::schema::Severity::Error
        &&& (forall|k: int| 0 <= k < s.len() ==> !(#[trigger] s[k] is Code))
            ==> report_of(c).code is None
        &&& (forall|k: int| 0 <= k < s.len() ==> !(#[trigger] s[k] is Config))
            ==> report_of(c).config is None
    } by {
        lemma_settle_keeps(s, default_meta());
    }
    if forall|j: int| 0 <= j < c.fields@.len() ==> !has_here(#[trigger] c.fields@[j]) {
        lemma_locate_none(c.fields@, 0);
    }
    if forall|j: int, k: int|
        0 <= j < c.fields@.len() && 0 <= k < c.fields@[j].annotations@.len() ==> !(
        #[trigger] c.fields@[j].annotations@[k] is Label) {
        lemma_no_labels(c.fields@, c.fields@.len() as int, vals);
    }
}

/// A template's arguments are the texts of the fields it names, in declared
/// order; so changing field `j` alone changes exactly the arguments that name
/// `j`, and leaves the others as they were.
pub proof fn law_substitution(t: Template, v1: Seq<Value>, v2: Seq<Value>, j: int)
    requires
        v1.len() == v2.len(),
        forall|i: int| 0 <= i < v1.len() && i != j ==> v1[i] == v2[i],
        forall|p: int| 0 <= p < t.args@.len() ==> #[trigger] t.args@[p] < v1.len(),
    ensures
        resolve(t, v1) == crate::template::fill(t.format@, arg_texts(t, v1)),
        arg_texts(t, v2).len() == t.args@.len(),
        forall|p: int|
            0 <= p < t.args@.len() ==> #[trigger] arg_texts(t, v1)[p] == value_text(
                v1[t.args@[p] as int],
            ),
        forall|p: int|
            0 <= p < t.args@.len() ==> #[trigger] arg_texts(t, v2)[p] == if t.args@[p] == j {
                value_text(v2[j])
            } else {
                arg_texts(t, v1)[p]
            },
{
}

/// Removes the location markers from a field's annotations.
pub open spec fn without_markers(anns: Seq<FieldAnnotation>) -> Seq<FieldAnnotation>
    decreases anns.len(),
{
    if anns.len() == 0 {
        Seq::empty()
    } else if anns[0] is Here {
        without_markers(anns.skip(1))
    } else {
        seq![anns[0]] + without_markers(anns.skip(1))
    }
}

proof fn lemma_field_markers(
    anns: Seq<FieldAnnotation>,
    color: Color,
    span: SourceSpan,
    vals: Seq<Value>,
)
    ensures
        field_labels(anns, color, span, vals) == field_labels(
            without_markers(anns),
            color,
            span,
            vals,
        ),
    decreases anns.len(),
{
    if anns.len() > 0 {
        let rest = without_markers(anns.skip(1));
        if !(anns[0] is Here) {
            let w = seq![anns[0]] + rest;
            assert(w[0] == anns[0]);
            assert(w.skip(1) =~= rest);
        }
        lemma_field_markers(anns.skip(1), color, span, vals);
    }
}

proof fn lemma_color_markers(anns: Seq<FieldAnnotation>)
    ensures
        field_color(anns) == field_color(without_markers(anns)),
    decreases anns.len(),
{
    if anns.len() > 0 {
        let rest = without_markers(anns.skip(1));
        if !(anns[0] is Here) {
            let w = seq![anns[0]] + rest;
            assert(w[0] == anns[0]);
            assert(w.skip(1) =~= rest);
        }
        lemma_color_markers(anns.skip(1));
    }
}

proof fn lemma_labels_markers(f1: Seq<FieldDecl>, f2: Seq<FieldDecl>, n: int, vals: Seq<Value>)
    requires
        n <= f1.len(),
        f1.len() == f2.len(),
        forall|j: int|
            0 <= j < f1.len() ==> without_markers(#[trigger] f1[j].annotations@)
                == without_markers(f2[j].annotations@),
    ensures
        labels_upto(f1, n, vals) == labels_upto(f2, n, vals),
    decreases n,
{
    if n > 0 {
        lemma_labels_markers(f1, f2, n - 1, vals);
        let span = span_of(vals[n - 1]);
        lemma_color_markers(f1[n - 1].annotations@);
        lemma_color_markers(f2[n - 1].annotations@);
        let color = field_color(f1[n - 1].annotations@);
        lemma_field_markers(f1[n - 1].annotations@, color, span, vals);
        lemma_field_markers(f2[n - 1].annotations@, color, span, vals);
    }
}

/// Labels come field by field in declaration order, each field's in the
/// colour of its first colour annotation, and location markers play no part
/// in them: two cases whose fields carry the same annotations
/// but for location markers give the same labels, in the same order.
pub proof fn law_labels_ignore_markers(c1: CaseDecl, c2: CaseDecl, vals: Seq<Value>)
    requires
        c1.fields@.len() == c2.fields@.len(),
        forall|j: int|
            0 <= j < c1.fields@.len() ==> without_markers(#[trigger] c1.fields@[j].annotations@)
                == without_markers(c2.fields@[j].annotations@),
    ensures
        labels_of(c1, vals) == labels_of(c2, vals),
        forall|n: int|
            0 < n <= c1.fields@.len() ==> #[trigger] labels_upto(c1.fields@, n, vals)
                == labels_upto(c1.fields@, n - 1, vals) + field_labels(
                c1.fields@[n - 1].annotations@,
                field_color(c1.fields@[n - 1].annotations@),
                span_of(vals[n - 1]),
                vals,
            ),
{
    lemma_labels_markers(c1.fields@, c2.fields@, c1.fields@.len() as int, vals);
}

/// Asking twice gives the same answer: results that meet an accessor's
/// contract on one case and one set of field values are equal.
pub proof fn law_repeatable(
    c: CaseDecl,
    vals: Seq<Value>,
    m1: Option<String>,
    m2: Option<String>,
    n1: Option<String>,
    n2: Option<String>,
    l1: Seq<LabelEntry>,
    l2: Seq<LabelEntry>,
)
    requires
        opt_view(m1) == message_of(c, vals),
        opt_view(m2) == message_of(c, vals),
        opt_view(n1) == note_of(c, vals),
        opt_view(n2) == note_of(c, vals),
        labels_view(l1) == labels_of(c, vals),
        labels_view(l2) == labels_of(c, vals),
    ensures
        opt_view(m1) == opt_view(m2),
        opt_view(n1) == opt_view(n2),
        labels_view(l1) == labels_view(l2),
        l1.len() == l2.len(),
        forall|i: int| 0 <= i < l1.len() ==> #[trigger] l1[i]@ == l2[i]@,
{
    assert(labels_view(l1).len() == l1.len());
    assert(labels_view(l2).len() == l2.len());
    assert forall|i: int| 0 <= i < l1.len() implies #[trigger] l1[i]@ == l2[i]@ by {
        assert(labels_view(l1)[i] == l1[i]@);
        assert(labels_view(l2)[i] == l2[i]@);
    }
}

} // verus!
