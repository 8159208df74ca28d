//! The annotation vocabulary, and the schema compiler that checks a set of
//! case declarations once, before any instance is resolved.
use vstd::prelude::*;
use crate::template::{arity, template_arity};
use ariadne::Color;

verus! {

/// The class of a diagnostic.
#[derive(Clone, Copy, Debug, PartialEq, Eq, Structural)]
pub enum Severity {
    Error,
    Warning,
    Advice,
}

/// How span offsets count: in bytes or in characters.
#[derive(Clone, Copy, Debug, PartialEq, Eq, Structural)]
pub enum IndexUnit {
    Byte,
    Char,
}

/// Layout settings for the renderer. Without them the renderer counts
/// offsets in characters, colours its output and leaves gaps for legibility.
#[derive(Clone, Copy, Debug, PartialEq, Eq, Structural)]
pub struct RenderConfig {
    pub index_unit: IndexUnit,
    pub compact: bool,
    pub color: bool,
}

/// A half-open range `[start, end)` of offsets into a source text.
#[derive(Clone, Copy, Debug, PartialEq, Eq, Structural)]
pub struct SourceSpan {
    pub start: usize,
    pub end: usize,
}

/// The type of a field of a case.
#[derive(Clone, Copy, Debug, PartialEq, Eq, Structural)]
pub enum FieldType {
    Int,
    Char,
    Text,
    Region,
}

/// The value of a field of an instance.
#[derive(Clone, Debug, PartialEq, Eq)]
pub enum Value {
    Int(i64),
    Char(char),
    Text(String),
    Region(SourceSpan),
}

/// A format template together with the fields, by position, whose values
/// fill its placeholders in order.
#[derive(Clone, Debug, PartialEq, Eq)]
pub struct Template {
    pub format: String,
    pub args: Vec<usize>,
}

/// One setting of a report annotation.
#[derive(Clone, Copy, Debug, PartialEq, Eq, Structural)]
pub enum ReportSetting {
    Kind(Severity),
    Config(RenderConfig),
    Code(usize),
}

/// An annotation on a case.
#[derive(Clone, Debug, PartialEq, Eq)]
pub enum CaseAnnotation {
    Message(Template),
    Note(Template),
    Report(Vec<ReportSetting>),
}

/// An annotation on a field.
#[derive(Clone, Debug, PartialEq, Eq)]
pub enum FieldAnnotation {
    /// Marks the field as the primary location of the diagnostic.
    Here,
    Label(Template),
    /// Sets the colour of the labels on the same field, wherever it stands
    /// among the field's annotations; the first one counts.
    Colored(Color),
}

#[derive(Clone, Copy, Debug, PartialEq, Eq, Structural)]
pub enum Shape {
    Unit,
    Named,
    Unnamed,
}

#[derive(Clone, Debug, PartialEq, Eq)]
pub struct FieldDecl {
    pub name: String,
    pub ty: FieldType,
    pub annotations: Vec<FieldAnnotation>,
}

#[derive(Clone, Debug, PartialEq, Eq)]
pub struct CaseDecl {
    pub name: String,
    pub shape: Shape,
    pub annotations: Vec<CaseAnnotation>,
    pub fields: Vec<FieldDecl>,
}

/// Why a set of case declarations was refused.
#[allow(inconsistent_fields)]
#[derive(Clone, Copy, Debug, PartialEq, Eq, Structural)]
pub enum SchemaError {
    /// A case without fields declares fields.
    UnitCaseWithFields { case: usize },
    /// A template is malformed, its placeholders do not match its arguments,
    /// or an argument is not a printable field of the case. `field` is the
    /// field of a label template, or `None` for a message or note.
    BadTemplate { case: usize, field: Option<usize> },
    /// A location marker or a label stands on a field that holds no span.
    NotASpan { case: usize, field: usize },
}

pub open spec fn template_ok(t: Template, fields: Seq<FieldDecl>) -> bool {
    &&& arity(t.format@) == Some(t.args@.len() as nat)
    &&& forall|p: int|
        0 <= p < t.args@.len() ==> {
            &&& #[trigger] t.args@[p] < fields.len()
            &&& fields[t.args@[p] as int].ty != FieldType::Region
        }
}

pub open spec fn case_annotation_ok(a: CaseAnnotation, fields: Seq<FieldDecl>) -> bool {
    match a {
        CaseAnnotation::Message(t) => template_ok(t, fields),
        CaseAnnotation::Note(t) => template_ok(t, fields),
        CaseAnnotation::Report(_) => true,
    }
}

/// Whether annotation `a` may stand on a field of type `ty`.
pub open spec fn marker_fits(a: FieldAnnotation, ty: FieldType) -> bool {
    match a {
        FieldAnnotation::Here => ty == FieldType::Region,
        FieldAnnotation::Label(_) => ty == FieldType::Region,
        FieldAnnotation::Colored(_) => true,
    }
}

pub open spec fn label_template_ok(a: FieldAnnotation, fields: Seq<FieldDecl>) -> bool {
    match a {
        FieldAnnotation::Label(t) => template_ok(t, fields),
        _ => true,
    }
}

pub open spec fn unit_ok(c: CaseDecl) -> bool {
    c.shape == Shape::Unit ==> c.fields@.len() == 0
}

pub open spec fn case_templates_ok(c: CaseDecl) -> bool {
    forall|k: int|
        0 <= k < c.annotations@.len() ==> case_annotation_ok(
            #[trigger] c.annotations@[k],
            c.fields@,
        )
}

pub open spec fn field_ok(c: CaseDecl, j: int) -> bool {
    forall|k: int|
        0 <= k < c.fields@[j].annotations@.len() ==> {
            &&& marker_fits(#[trigger] c.fields@[j].annotations@[k], c.fields@[j].ty)
            &&& label_template_ok(c.fields@[j].annotations@[k], c.fields@)
        }
}

pub open spec fn fields_ok(c: CaseDecl) -> bool {
    forall|j: int| 0 <= j < c.fields@.len() ==> #[trigger] field_ok(c, j)
}

/// A case declaration that the schema compiler accepts.
pub open spec fn case_ok(c: CaseDecl) -> bool {
    unit_ok(c) && case_templates_ok(c) && fields_ok(c)
}

pub open spec fn all_ok(cs: Seq<CaseDecl>) -> bool {
    forall|i: int| 0 <= i < cs.len() ==> #[trigger] case_ok(cs[i])
}

/// Whether a field annotation of case `c` on field `j` is refused for its place.
pub open spec fn misplaced(c: CaseDecl, j: int) -> bool {
    exists|k: int|
        0 <= k < c.fields@[j].annotations@.len() && !marker_fits(
            #[trigger] c.fields@[j].annotations@[k],
            c.fields@[j].ty,
        )
}

pub open spec fn bad_label(c: CaseDecl, j: int) -> bool {
    exists|k: int|
        0 <= k < c.fields@[j].annotations@.len() && !label_template_ok(
            #[trigger] c.fields@[j].annotations@[k],
            c.fields@,
        )
}

/// What an error says of the declarations it was raised on.
pub open spec fn error_holds(e: SchemaError, cs: Seq<CaseDecl>) -> bool {
    match e {
        SchemaError::UnitCaseWithFields { case } => case < cs.len() && !unit_ok(cs[case as int]),
        SchemaError::BadTemplate { case, field } => case < cs.len() && match field {
            None => !case_templates_ok(cs[case as int]),
            Some(j) => j < cs[case as int].fields@.len() && bad_label(cs[case as int], j as int),
        },
        SchemaError::NotASpan { case, field } => case < cs.len() && field
            < cs[case as int].fields@.len() && misplaced(cs[case as int], field as int),
    }
}

/// A checked set of case declarations.
pub struct Schema {
    cases: Vec<CaseDecl>,
}

impl Schema {
    pub closed spec fn decls(&self) -> Seq<CaseDecl> {
        self.cases@
    }

    pub open spec fn wf(&self) -> bool {
        all_ok(self.decls())
    }

    pub fn case_count(&self) -> (r: usize)
        ensures
            r == self.decls().len(),
    {
        self.cases.len()
    }

    pub fn case(&self, i: usize) -> (r: &CaseDecl)
        requires
            i < self.decls().len(),
        ensures
            *r == self.decls()[i as int],
    {
        &self.cases[i]
    }

    /// Checks the declarations and keeps them, in order, as a schema.
    pub fn compile(cases: Vec<CaseDecl>) -> (r: Result<Schema, SchemaError>)
        ensures
            r is Ok <==> all_ok(cases@),
            match r {
                Ok(s) => s.decls() == cases@ && s.wf(),
                Err(e) => error_holds(e, cases@),
            },
    {
        let mut i: usize = 0;
        while i < cases.len()
            invariant
                i <= cases@.len(),
                forall|p: int| 0 <= p < i ==> #[trigger] case_ok(cases@[p]),
            decreases cases@.len() - i,
        {
            match check_case(&cases[i], i) {
                Ok(()) => {},
                Err(e) => {
                    return Err(e);
                },
            }
            i = i + 1;
        }
        Ok(Schema { cases })
    }
}

fn template_fits(t: &Template, fields: &Vec<FieldDecl>) -> (r: bool)
    ensures
        r == template_ok(*t, fields@),
{
    match template_arity(t.format.as_str()) {
        None => {
            return false;
        },
        Some(n) => {
            if n != t.args.len() {
                return false;
            }
        },
    }
    let mut p: usize = 0;
    while p < t.args.len()
        invariant
            p <= t.args@.len(),
            forall|q: int|
                0 <= q < p ==> {
                    &&& #[trigger] t.args@[q] < fields@.len()
                    &&& fields@[t.args@[q] as int].ty != FieldType::Region
                },
        decreases t.args@.len() - p,
    {
        let a = t.args[p];
        if a >= fields.len() {
            return false;
        }
        match fields[a].ty {
            FieldType::Region => {
                return false;
            },
            _ => {},
        }
        p = p + 1;
    }
    true
}

fn check_case(c: &CaseDecl, i: usize) -> (r: Result<(), SchemaError>)
    ensures
        r is Ok <==> case_ok(*c),
        match r {
            Ok(_) => true,
            Err(e) => match e {
                SchemaError::UnitCaseWithFields { case } => case == i && !unit_ok(*c),
                SchemaError::BadTemplate { case, field } => case == i && match field {
                    None => !case_templates_ok(*c),
                    Some(j) => j < c.fields@.len() && bad_label(*c, j as int),
                },
                SchemaError::NotASpan { case, field } => case == i && field < c.fields@.len()
                    && misplaced(*c, field as int),
            },
        },
{
    match c.shape {
        Shape::Unit => {
            if c.fields.len() > 0 {
                return Err(SchemaError::UnitCaseWithFields { case: i });
            }
        },
        _ => {},
    }
    let mut k: usize = 0;
    while k < c.annotations.len()
        invariant
            k <= c.annotations@.len(),
            forall|q: int|
                0 <= q < k ==> case_annotation_ok(#[trigger] c.annotations@[q], c.fields@),
        decreases c.annotations@.len() - k,
    {
        let fine = match &c.annotations[k] {
            CaseAnnotation::Message(t) => template_fits(t, &c.fields),
            CaseAnnotation::Note(t) => template_fits(t, &c.fields),
            CaseAnnotation::Report(_) => true,
        };
        if !fine {
            return Err(SchemaError::BadTemplate { case: i, field: None });
        }
        k = k + 1;
    }
    let mut j: usize = 0;
    while j < c.fields.len()
        invariant
            j <= c.fields@.len(),
            unit_ok(*c),
            case_templates_ok(*c),
            forall|q: int| 0 <= q < j ==> #[trigger] field_ok(*c, q),
        decreases c.fields@.len() - j,
    {
        let f = &c.fields[j];
        let mut k: usize = 0;
        while k < f.annotations.len()
            invariant
                j < c.fields@.len(),
                *f == c.fields@[j as int],
                k <= f.annotations@.len(),
                forall|q: int|
                    0 <= q < k ==> {
                        &&& marker_fits(#[trigger] f.annotations@[q], f.ty)
                        &&& label_template_ok(f.annotations@[q], c.fields@)
                    },
            decreases f.annotations@.len() - k,
        {
            let a = &f.annotations[k];
            let fits = match a {
                FieldAnnotation::Colored(_) => true,
                _ => match f.ty {
                    FieldType::Region => true,
                    _ => false,
                },
            };
            if !fits {
                assert(!marker_fits(f.annotations@[k as int], f.ty));
                assert(!field_ok(*c, j as int));
                return Err(SchemaError::NotASpan { case: i, field: j });
            }
            match a {
                FieldAnnotation::Label(t) => {
                    if !template_fits(t, &c.fields) {
                        assert(!label_template_ok(f.annotations@[k as int], c.fields@));
                        assert(!field_ok(*c, j as int));
                        return Err(SchemaError::BadTemplate { case: i, field: Some(j) });
                    }
                },
                _ => {},
            }
            k = k + 1;
        }
        assert(field_ok(*c, j as int));
        j = j + 1;
    }
    Ok(())
}

} // verus!
