//! Resolving an instance of a case into the parts of its diagnostic.
use vstd::prelude::*;
use crate::schema::{
    CaseAnnotation, CaseDecl, FieldAnnotation, RenderConfig, FieldDecl, FieldType, ReportSetting, Schema,
    Severity, SourceSpan, Template, Value,
};
use ariadne::Color;
use crate::template::{fill, fill_template, texts};

verus! {

/// An instance of one case: which case, and the values of its fields in
/// declaration order.
#[derive(Clone, Debug, PartialEq, Eq)]
pub struct Instance {
    pub case: usize,
    pub fields: Vec<Value>,
}

/// One label of a diagnostic: a coloured message over a span.
#[derive(Clone, Debug, PartialEq, Eq)]
pub struct LabelEntry {
    pub color: Color,
    pub message: String,
    pub span: SourceSpan,
}

impl View for LabelEntry {
    type V = (Color, Seq<char>, SourceSpan);

    open spec fn view(&self) -> (Color, Seq<char>, SourceSpan) {
        (self.color, self.message@, self.span)
    }
}

/// The severity, render settings and code that a case declares.
#[derive(Clone, Copy, Debug, PartialEq, Eq, Structural)]
pub struct ReportMeta {
    pub kind: Severity,
    pub config: Option<RenderConfig>,
    pub code: Option<usize>,
}

/// Everything that the accessors resolve for one instance.
#[derive(Clone, Debug, PartialEq, Eq)]
pub struct DiagnosticRecord {
    pub kind: Severity,
    pub code: Option<usize>,
    pub config: Option<RenderConfig>,
    pub message: Option<String>,
    pub note: Option<String>,
    pub location: Option<SourceSpan>,
    pub labels: Vec<LabelEntry>,
}

pub open spec fn opt_view(o: Option<String>) -> Option<Seq<char>> {
    match o {
        Some(s) => Some(s@),
        None => None,
    }
}

pub open spec fn labels_view(s: Seq<LabelEntry>) -> Seq<(Color, Seq<char>, SourceSpan)> {
    s.map_values(|l: LabelEntry| l@)
}

pub open spec fn has_type(v: Value, ty: FieldType) -> bool {
    match v {
        Value::Int(_) => ty == FieldType::Int,
        Value::Char(_) => ty == FieldType::Char,
        Value::Text(_) => ty == FieldType::Text,
        Value::Region(_) => ty == FieldType::Region,
    }
}

pub open spec fn digit_char(d: nat) -> char {
    seq!['0', '1', '2', '3', '4', '5', '6', '7', '8', '9'][d as int]
}

/// The decimal digits of `n`, most significant first.
pub open spec fn digits(n: nat) -> Seq<char>
    decreases n,
{
    if n < 10 {
        seq![digit_char(n)]
    } else {
        digits(n / 10) + seq![digit_char(n % 10)]
    }
}

/// The decimal text of an integer.
pub open spec fn decimal(n: int) -> Seq<char> {
    if n < 0 {
        seq!['-'] + digits((-n) as nat)
    } else {
        digits(n as nat)
    }
}

/// The text that a field value gives a placeholder.
pub open spec fn value_text(v: Value) -> Seq<char> {
    match v {
        Value::Int(n) => decimal(n as int),
        Value::Char(c) => seq![c],
        Value::Text(s) => s@,
        Value::Region(_) => Seq::empty(),
    }
}

pub open spec fn span_of(v: Value) -> SourceSpan {
    match v {
        Value::Region(s) => s,
        _ => SourceSpan { start: 0, end: 0 },
    }
}

/// The arguments of template `t`, as texts, in declared order.
pub open spec fn arg_texts(t: Template, vals: Seq<Value>) -> Seq<Seq<char>> {
    t.args@.map_values(|p: usize| value_text(vals[p as int]))
}

/// The text of template `t` over the field values `vals`.
pub open spec fn resolve(t: Template, vals: Seq<Value>) -> Seq<char> {
    fill(t.format@, arg_texts(t, vals))
}

/// The first message template (or, with `note`, note template) among `anns`.
pub open spec fn first_template(anns: Seq<CaseAnnotation>, note: bool) -> Option<Template>
    decreases anns.len(),
{
    if anns.len() == 0 {
        None
    } else if !note && anns[0] is Message {
        Some(anns[0]->Message_0)
    } else if note && anns[0] is Note {
        Some(anns[0]->Note_0)
    } else {
        first_template(anns.skip(1), note)
    }
}

/// The settings of the first report annotation among `anns`.
pub open spec fn first_report(anns: Seq<CaseAnnotation>) -> Option<Seq<ReportSetting>>
    decreases anns.len(),
{
    if anns.len() == 0 {
        None
    } else if anns[0] is Report {
        Some(anns[0]->Report_0@)
    } else {
        first_report(anns.skip(1))
    }
}

pub open spec fn default_meta() -> ReportMeta {
    ReportMeta { kind: Severity::Error, config: None, code: None }
}

pub open spec fn apply_setting(m: ReportMeta, s: ReportSetting) -> ReportMeta {
    match s {
        ReportSetting::Kind(k) => ReportMeta { kind: k, ..m },
        ReportSetting::Config(c) => ReportMeta { config: Some(c), ..m },
        ReportSetting::Code(c) => ReportMeta { code: Some(c), ..m },
    }
}

/// `m` after the settings `s`, in order: a later setting of a key wins.
pub open spec fn settle(s: Seq<ReportSetting>, m: ReportMeta) -> ReportMeta
    decreases s.len(),
{
    if s.len() == 0 {
        m
    } else {
        settle(s.skip(1), apply_setting(m, s[0]))
    }
}

pub open spec fn report_of(c: CaseDecl) -> ReportMeta {
    match first_report(c.annotations@) {
        Some(s) => settle(s, default_meta()),
        None => default_meta(),
    }
}

pub open spec fn message_of(c: CaseDecl, vals: Seq<Value>) -> Option<Seq<char>> {
    match first_template(c.annotations@, false) {
        Some(t) => Some(resolve(t, vals)),
        None => None,
    }
}

pub open spec fn note_of(c: CaseDecl, vals: Seq<Value>) -> Option<Seq<char>> {
    match first_template(c.annotations@, true) {
        Some(t) => Some(resolve(t, vals)),
        None => None,
    }
}

pub open spec fn has_here(f: FieldDecl) -> bool {
    exists|k: int| 0 <= k < f.annotations@.len() && #[trigger] f.annotations@[k] is Here
}

/// The first field, from `j` on, that carries a location marker.
pub open spec fn locate(fields: Seq<FieldDecl>, j: int) -> Option<int>
    decreases fields.len() - j,
{
    if j < 0 || j >= fields.len() {
        None
    } else if has_here(fields[j]) {
        Some(j)
    } else {
        locate(fields, j + 1)
    }
}

pub open spec fn location_of(c: CaseDecl, vals: Seq<Value>) -> Option<SourceSpan> {
    match locate(c.fields@, 0) {
        Some(j) => Some(span_of(vals[j])),
        None => None,
    }
}

/// The colour of a field's labels: its first colour annotation, wherever it
/// stands, or red.
pub open spec fn field_color(anns: Seq<FieldAnnotation>) -> Color
    decreases anns.len(),
{
    if anns.len() == 0 {
        Color::Red
    } else {
        match anns[0] {
            FieldAnnotation::Colored(c) => c,
            _ => field_color(anns.skip(1)),
        }
    }
}

/// The labels that the annotations `anns` of one field give, in order, each
/// in `color` over that field's span.
pub open spec fn field_labels(
    anns: Seq<FieldAnnotation>,
    color: Color,
    span: SourceSpan,
    vals: Seq<Value>,
) -> Seq<(Color, Seq<char>, SourceSpan)>
    decreases anns.len(),
{
    if anns.len() == 0 {
        Seq::empty()
    } else {
        match anns[0] {
            FieldAnnotation::Label(t) => seq![(color, resolve(t, vals), span)] + field_labels(
                anns.skip(1),
                color,
                span,
                vals,
            ),
            _ => field_labels(anns.skip(1), color, span, vals),
        }
    }
}

/// The labels of the first `n` fields, in field order.
pub open spec fn labels_upto(fields: Seq<FieldDecl>, n: int, vals: Seq<Value>) -> Seq<
    (Color, Seq<char>, SourceSpan),
>
    decreases n,
{
    if n <= 0 {
        Seq::empty()
    } else {
        labels_upto(fields, n - 1, vals) + field_labels(
            fields[n - 1].annotations@,
            field_color(fields[n - 1].annotations@),
            span_of(vals[n - 1]),
            vals,
        )
    }
}

pub open spec fn labels_of(c: CaseDecl, vals: Seq<Value>) -> Seq<(Color, Seq<char>, SourceSpan)> {
    labels_upto(c.fields@, c.fields@.len() as int, vals)
}

/// Relies on `i64`'s `ToString`, that is its `Display`: the decimal digits,
/// after a `-` when negative.
#[verifier::external_body]
fn int_text(n: i64) -> (r: String)
    ensures
        r@ == decimal(n as int),
{
    n.to_string()
}

/// Relies on `char`'s `ToString`: the character alone.
#[verifier::external_body]
fn char_text(c: char) -> (r: String)
    ensures
        r@ == seq![c],
{
    c.to_string()
}

/// The text that `v` gives a placeholder.
pub fn text_of(v: &Value) -> (r: String)
    ensures
        r@ == value_text(*v),
{
    match v {
        Value::Int(n) => int_text(*n),
        Value::Char(c) => char_text(*c),
        Value::Text(s) => s.clone(),
        Value::Region(_) => String::new(),
    }
}

/// Fills template `t` with the texts of the fields it names.
pub fn resolve_template(t: &Template, vals: &Vec<Value>) -> (r: String)
    requires
        crate::template::arity(t.format@) == Some(t.args@.len() as nat),
        forall|p: int| 0 <= p < t.args@.len() ==> #[trigger] t.args@[p] < vals@.len(),
    ensures
        r@ == resolve(*t, vals@),
{
    let mut args: Vec<String> = Vec::new();
    let mut p: usize = 0;
    while p < t.args.len()
        invariant
            p <= t.args@.len(),
            forall|q: int| 0 <= q < t.args@.len() ==> #[trigger] t.args@[q] < vals@.len(),
            texts(args@) =~= arg_texts(*t, vals@).take(p as int),
        decreases t.args@.len() - p,
    {
        let ghost prev = texts(args@);
        let s = text_of(&vals[t.args[p]]);
        args.push(s);
        assert(texts(args@) =~= prev.push(s@));
        assert(texts(args@) =~= arg_texts(*t, vals@).take(p + 1));
        p = p + 1;
    }
    assert(arg_texts(*t, vals@).take(p as int) =~= arg_texts(*t, vals@));
    fill_template(t.format.as_str(), &args)
}

fn find_template(anns: &Vec<CaseAnnotation>, note: bool, fields: Ghost<Seq<FieldDecl>>) -> (r:
    Option<&Template>)
    requires
        forall|k: int|
            0 <= k < anns@.len() ==> crate::schema::case_annotation_ok(
                #[trigger] anns@[k],
                fields@,
            ),
    ensures
        match r {
            Some(t) => first_template(anns@, note) == Some(*t) && crate::schema::template_ok(
                *t,
                fields@,
            ),
            None => first_template(anns@, note) is None,
        },
{
    let mut k: usize = 0;
    assert(anns@.skip(0) =~= anns@);
    while k < anns.len()
        invariant
            k <= anns@.len(),
            first_template(anns@, note) == first_template(anns@.skip(k as int), note),
            forall|q: int|
                0 <= q < anns@.len() ==> crate::schema::case_annotation_ok(
                    #[trigger] anns@[q],
                    fields@,
                ),
        decreases anns@.len() - k,
    {
        assert(anns@.skip(k as int)[0] == anns@[k as int]);
        assert(anns@.skip(k as int).skip(1) =~= anns@.skip(k + 1));
        assert(crate::schema::case_annotation_ok(anns@[k as int], fields@));
        match &anns[k] {
            CaseAnnotation::Message(t) => {
                if !note {
                    return Some(t);
                }
            },
            CaseAnnotation::Note(t) => {
                if note {
                    return Some(t);
                }
            },
            CaseAnnotation::Report(_) => {},
        }
        k = k + 1;
    }
    None
}

fn find_report(anns: &Vec<CaseAnnotation>) -> (r: Option<&Vec<ReportSetting>>)
    ensures
        match r {
            Some(s) => first_report(anns@) == Some(s@),
            None => first_report(anns@) is None,
        },
{
    let mut k: usize = 0;
    assert(anns@.skip(0) =~= anns@);
    while k < anns.len()
        invariant
            k <= anns@.len(),
            first_report(anns@) == first_report(anns@.skip(k as int)),
        decreases anns@.len() - k,
    {
        assert(anns@.skip(k as int)[0] == anns@[k as int]);
        assert(anns@.skip(k as int).skip(1) =~= anns@.skip(k + 1));
        match &anns[k] {
            CaseAnnotation::Report(s) => {
                return Some(s);
            },
            _ => {},
        }
        k = k + 1;
    }
    None
}

/// Resolves the settings of one report annotation: each key starts at its
/// default, and a later setting of a key replaces an earlier one.
pub fn settle_report(settings: &Vec<ReportSetting>) -> (r: ReportMeta)
    ensures
        r == settle(settings@, default_meta()),
{
    let mut m = ReportMeta { kind: Severity::Error, config: None, code: None };
    let mut k: usize = 0;
    assert(settings@.skip(0) =~= settings@);
    while k < settings.len()
        invariant
            k <= settings@.len(),
            settle(settings@, default_meta()) == settle(settings@.skip(k as int), m),
        decreases settings@.len() - k,
    {
        assert(settings@.skip(k as int)[0] == settings@[k as int]);
        assert(settings@.skip(k as int).skip(1) =~= settings@.skip(k + 1));
        match settings[k] {
            ReportSetting::Kind(kind) => {
                m = ReportMeta { kind, ..m };
            },
            ReportSetting::Config(c) => {
                m = ReportMeta { config: Some(c), ..m };
            },
            ReportSetting::Code(c) => {
                m = ReportMeta { code: Some(c), ..m };
            },
        }
        k = k + 1;
    }
    m
}

/// Whether a field's annotations hold a location marker.
pub fn has_location_marker(anns: &Vec<FieldAnnotation>) -> (r: bool)
    ensures
        r == exists|k: int| 0 <= k < anns@.len() && #[trigger] anns@[k] is Here,
{
    let mut k: usize = 0;
    while k < anns.len()
        invariant
            k <= anns@.len(),
            forall|q: int| 0 <= q < k ==> !(#[trigger] anns@[q] is Here),
        decreases anns@.len() - k,
    {
        match &anns[k] {
            FieldAnnotation::Here => {
                return true;
            },
            _ => {},
        }
        k = k + 1;
    }
    false
}

/// The colour of a field's labels.
pub fn label_color_of(anns: &Vec<FieldAnnotation>) -> (r: Color)
    ensures
        r == field_color(anns@),
{
    let mut k: usize = 0;
    assert(anns@.skip(0) =~= anns@);
    while k < anns.len()
        invariant
            k <= anns@.len(),
            field_color(anns@) == field_color(anns@.skip(k as int)),
        decreases anns@.len() - k,
    {
        assert(anns@.skip(k as int)[0] == anns@[k as int]);
        assert(anns@.skip(k as int).skip(1) =~= anns@.skip(k + 1));
        match &anns[k] {
            FieldAnnotation::Colored(c) => {
                return *c;
            },
            _ => {},
        }
        k = k + 1;
    }
    Color::Red
}

fn push_field_labels(
    out: &mut Vec<LabelEntry>,
    anns: &Vec<FieldAnnotation>,
    span: SourceSpan,
    vals: &Vec<Value>,
    fields: Ghost<Seq<FieldDecl>>,
)
    requires
        fields@.len() == vals@.len(),
        forall|k: int|
            0 <= k < anns@.len() ==> crate::schema::label_template_ok(
                #[trigger] anns@[k],
                fields@,
            ),
    ensures
        labels_view(final(out)@) == labels_view(old(out)@) + field_labels(
            anns@,
            field_color(anns@),
            span,
            vals@,
        ),
{
    let ghost start = labels_view(out@);
    let color = label_color_of(anns);
    let mut k: usize = 0;
    assert(anns@.skip(0) =~= anns@);
    while k < anns.len()
        invariant
            k <= anns@.len(),
            fields@.len() == vals@.len(),
            color == field_color(anns@),
            forall|q: int|
                0 <= q < anns@.len() ==> crate::schema::label_template_ok(
                    #[trigger] anns@[q],
                    fields@,
                ),
            labels_view(out@) + field_labels(anns@.skip(k as int), color, span, vals@) == start
                + field_labels(anns@, color, span, vals@),
        decreases anns@.len() - k,
    {
        let ghost rest = anns@.skip(k as int);
        let ghost before = labels_view(out@);
        assert(rest[0] == anns@[k as int]);
        assert(rest.skip(1) =~= anns@.skip(k + 1));
        match &anns[k] {
            FieldAnnotation::Label(t) => {
                assert(crate::schema::label_template_ok(anns@[k as int], fields@));
                let message = resolve_template(t, vals);
                let l = LabelEntry { color, message, span };
                out.push(l);
                assert(labels_view(out@) =~= before.push(l@));
                assert(labels_view(out@) + field_labels(anns@.skip(k + 1), color, span, vals@)
                    =~= before + field_labels(rest, color, span, vals@));
            },
            _ => {},
        }
        k = k + 1;
    }
    assert(anns@.skip(k as int) =~= Seq::<FieldAnnotation>::empty());
    assert(labels_view(out@) =~= labels_view(out@) + Seq::<(Color, Seq<char>, SourceSpan)>::empty());
}

impl Schema {
    /// Whether `inst` is an instance of one of the cases, with a value of the
    /// declared type in each field.
    pub open spec fn admits(&self, inst: Instance) -> bool {
        &&& inst.case < self.decls().len()
        &&& inst.fields@.len() == self.decls()[inst.case as int].fields@.len()
        &&& forall|j: int|
            0 <= j < inst.fields@.len() ==> has_type(
                #[trigger] inst.fields@[j],
                self.decls()[inst.case as int].fields@[j].ty,
            )
    }

    pub open spec fn case_of(&self, inst: Instance) -> CaseDecl {
        self.decls()[inst.case as int]
    }

    /// Tells whether the schema admits `inst`.
    pub fn check_instance(&self, inst: &Instance) -> (r: bool)
        ensures
            r == self.admits(*inst),
    {
        if inst.case >= self.case_count() {
            return false;
        }
        let c = self.case(inst.case);
        if inst.fields.len() != c.fields.len() {
            return false;
        }
        let mut j: usize = 0;
        while j < inst.fields.len()
            invariant
                inst.case < self.decls().len(),
                *c == self.decls()[inst.case as int],
                inst.fields@.len() == c.fields@.len(),
                j <= inst.fields@.len(),
                forall|q: int|
                    0 <= q < j ==> has_type(#[trigger] inst.fields@[q], c.fields@[q].ty),
            decreases inst.fields@.len() - j,
        {
            let fits = match (&inst.fields[j], c.fields[j].ty) {
                (Value::Int(_), FieldType::Int) => true,
                (Value::Char(_), FieldType::Char) => true,
                (Value::Text(_), FieldType::Text) => true,
                (Value::Region(_), FieldType::Region) => true,
                _ => false,
            };
            if !fits {
                return false;
            }
            j = j + 1;
        }
        true
    }

    /// The headline of the diagnostic: the case's first message template,
    /// filled with the instance's fields, or `None` when it declares none.
    pub fn message(&self, inst: &Instance) -> (r: Option<String>)
        requires
            self.wf(),
            self.admits(*inst),
        ensures
            opt_view(r) == message_of(self.case_of(*inst), inst.fields@),
    {
        self.resolve_case_template(inst, false)
    }

    /// The trailing note: the case's first note template, filled with the
    /// instance's fields, or `None` when it declares none.
    pub fn note(&self, inst: &Instance) -> (r: Option<String>)
        requires
            self.wf(),
            self.admits(*inst),
        ensures
            opt_view(r) == note_of(self.case_of(*inst), inst.fields@),
    {
        self.resolve_case_template(inst, true)
    }

    fn resolve_case_template(&self, inst: &Instance, note: bool) -> (r: Option<String>)
        requires
            self.wf(),
            self.admits(*inst),
        ensures
            opt_view(r) == match first_template(self.case_of(*inst).annotations@, note) {
                Some(t) => Some(resolve(t, inst.fields@)),
                None => None,
            },
    {
        let c = self.case(inst.case);
        assert(crate::schema::case_ok(*c));
        match find_template(&c.annotations, note, Ghost(c.fields@)) {
            Some(t) => {
                let s = resolve_template(t, &inst.fields);
                Some(s)
            },
            None => None,
        }
    }

    /// The severity, settings and code of the case's first report
    /// annotation, each at its default where unset.
    pub fn report(&self, inst: &Instance) -> (r: ReportMeta)
        requires
            self.admits(*inst),
        ensures
            r == report_of(self.case_of(*inst)),
    {
        let c = self.case(inst.case);
        match find_report(&c.annotations) {
            Some(s) => settle_report(s),
            None => ReportMeta { kind: Severity::Error, config: None, code: None },
        }
    }

    /// The severity: `Error` unless the case's report annotation sets it.
    pub fn kind(&self, inst: &Instance) -> (r: Severity)
        requires
            self.admits(*inst),
        ensures
            r == report_of(self.case_of(*inst)).kind,
    {
        self.report(inst).kind
    }

    /// The code that the case's report annotation sets, if any.
    pub fn code(&self, inst: &Instance) -> (r: Option<usize>)
        requires
            self.admits(*inst),
        ensures
            r == report_of(self.case_of(*inst)).code,
    {
        self.report(inst).code
    }

    /// The render settings that the case's report annotation sets, if any.
    pub fn config(&self, inst: &Instance) -> (r: Option<RenderConfig>)
        requires
            self.admits(*inst),
        ensures
            r == report_of(self.case_of(*inst)).config,
    {
        self.report(inst).config
    }

    /// The span held by the first field that carries a location marker.
    pub fn location(&self, inst: &Instance) -> (r: Option<SourceSpan>)
        requires
            self.admits(*inst),
        ensures
            r == location_of(self.case_of(*inst), inst.fields@),
    {
        let c = self.case(inst.case);
        let mut j: usize = 0;
        assert(locate(c.fields@, 0) == locate(c.fields@, j as int));
        while j < c.fields.len()
            invariant
                *c == self.case_of(*inst),
                inst.fields@.len() == c.fields@.len(),
                j <= c.fields@.len(),
                locate(c.fields@, 0) == locate(c.fields@, j as int),
            decreases c.fields@.len() - j,
        {
            if has_location_marker(&c.fields[j].annotations) {
                assert(has_here(c.fields@[j as int]));
                return match &inst.fields[j] {
                    Value::Region(s) => Some(*s),
                    _ => Some(SourceSpan { start: 0, end: 0 }),
                };
            }
            j = j + 1;
        }
        None
    }

    /// The labels of every label annotation of the case, field by field in
    /// declaration order, and in order within a field.
    pub fn labels(&self, inst: &Instance) -> (r: Vec<LabelEntry>)
        requires
            self.wf(),
            self.admits(*inst),
        ensures
            labels_view(r@) == labels_of(self.case_of(*inst), inst.fields@),
    {
        let c = self.case(inst.case);
        assert(crate::schema::case_ok(*c));
        let mut out: Vec<LabelEntry> = Vec::new();
        let mut j: usize = 0;
        assert(labels_view(out@) =~= labels_upto(c.fields@, 0, inst.fields@));
        while j < c.fields.len()
            invariant
                *c == self.case_of(*inst),
                crate::schema::case_ok(*c),
                inst.fields@.len() == c.fields@.len(),
                j <= c.fields@.len(),
                labels_view(out@) == labels_upto(c.fields@, j as int, inst.fields@),
            decreases c.fields@.len() - j,
        {
            assert(crate::schema::field_ok(*c, j as int));
            let span = match &inst.fields[j] {
                Value::Region(s) => *s,
                _ => SourceSpan { start: 0, end: 0 },
            };
            push_field_labels(&mut out, &c.fields[j].annotations, span, &inst.fields, Ghost(c.fields@));
            j = j + 1;
        }
        out
    }

    /// All that the accessors resolve for `inst`, in one record.
    pub fn assemble(&self, inst: &Instance) -> (r: DiagnosticRecord)
        requires
            self.wf(),
            self.admits(*inst),
        ensures
            r.kind == report_of(self.case_of(*inst)).kind,
            r.code == report_of(self.case_of(*inst)).code,
            r.config == report_of(self.case_of(*inst)).config,
            opt_view(r.message) == message_of(self.case_of(*inst), inst.fields@),
            opt_view(r.note) == note_of(self.case_of(*inst), inst.fields@),
            r.location == location_of(self.case_of(*inst), inst.fields@),
            labels_view(r.labels@) == labels_of(self.case_of(*inst), inst.fields@),
    {
        let meta = self.report(inst);
        DiagnosticRecord {
            kind: meta.kind,
            code: meta.code,
            config: meta.config,
            message: self.message(inst),
            note: self.note(inst),
            location: self.location(inst),
            labels: self.labels(inst),
        }
    }
}

} // verus!
