use ariadnenum::diagnostic::{settle_report, text_of, Instance, LabelEntry};
use ariadnenum::template::{fill_template, template_arity};
use ariadnenum::render::{build_report, emit, fits_source, labels_ordered, RenderError};
use ariadnenum::schema::{
    CaseAnnotation, CaseDecl, FieldAnnotation, FieldDecl, FieldType, IndexUnit, RenderConfig,
    ReportSetting, Schema,
    SchemaError, Severity, Shape, SourceSpan, Template, Value,
};

fn tpl(format: &str, args: Vec<usize>) -> Template {
    Template { format: format.to_string(), args }
}

fn field(name: &str, ty: FieldType, annotations: Vec<FieldAnnotation>) -> FieldDecl {
    FieldDecl { name: name.to_string(), ty, annotations }
}

fn span(start: usize, end: usize) -> SourceSpan {
    SourceSpan { start, end }
}

fn plain_config() -> RenderConfig {
    RenderConfig { index_unit: IndexUnit::Byte, compact: false, color: false }
}

// The two cases of a small lexer's error type.
fn lexing_schema() -> Schema {
    let bracket = CaseDecl {
        name: "BracketMismatch".to_string(),
        shape: Shape::Named,
        annotations: vec![
            CaseAnnotation::Report(vec![
                ReportSetting::Kind(Severity::Error),
                ReportSetting::Config(RenderConfig {
                    index_unit: IndexUnit::Byte,
                    compact: false,
                    color: true,
                }),
                ReportSetting::Code(300),
            ]),
            CaseAnnotation::Message(tpl("Unexpected closing bracket", vec![])),
            CaseAnnotation::Note(tpl("remove this bracket", vec![])),
        ],
        fields: vec![
            field(
                "location",
                FieldType::Region,
                vec![
                    FieldAnnotation::Colored(ariadne::Color::Yellow),
                    FieldAnnotation::Label(tpl("Bracket {} is here", vec![1])),
                    FieldAnnotation::Here,
                ],
            ),
            field("kind", FieldType::Char, vec![]),
        ],
    };
    let semicolon = CaseDecl {
        name: "UnusedSemicolon".to_string(),
        shape: Shape::Unnamed,
        annotations: vec![
            CaseAnnotation::Report(vec![ReportSetting::Kind(Severity::Warning)]),
            CaseAnnotation::Message(tpl("Unused Semicolon: '{}'", vec![1])),
            CaseAnnotation::Note(tpl("remove this semicolon", vec![])),
        ],
        fields: vec![
            field(
                "0",
                FieldType::Region,
                vec![
                    FieldAnnotation::Colored(ariadne::Color::Yellow),
                    FieldAnnotation::Label(tpl("Here", vec![])),
                    FieldAnnotation::Here,
                ],
            ),
            field("1", FieldType::Char, vec![]),
        ],
    };
    Schema::compile(vec![bracket, semicolon]).unwrap()
}

const SOURCE: &str = r#"fn main() {
        println!("Hello, world!"));
    }"#;

#[test]
fn test() {
    let schema = lexing_schema();
    let inst = Instance { case: 0, fields: vec![Value::Region(span(45, 46)), Value::Char(')')] };
    assert!(schema.check_instance(&inst));
    let result = schema.render(&inst, "target.rs", SOURCE);
    let bytes = result.unwrap();
    let text = String::from_utf8(bytes).unwrap();
    println!("{}", text);
    assert!(text.contains("Unexpected closing bracket"));
    assert!(text.contains("Bracket ) is here"));
    assert!(text.contains("remove this bracket"));
    assert!(text.contains("300"));
}

#[test]
fn lexing_accessors() {
    let schema = lexing_schema();
    let bracket = Instance { case: 0, fields: vec![Value::Region(span(45, 46)), Value::Char(')')] };
    assert_eq!(schema.message(&bracket), Some("Unexpected closing bracket".to_string()));
    assert_eq!(schema.note(&bracket), Some("remove this bracket".to_string()));
    assert_eq!(schema.kind(&bracket), Severity::Error);
    assert_eq!(schema.code(&bracket), Some(300));
    assert_eq!(
        schema.config(&bracket),
        Some(RenderConfig { index_unit: IndexUnit::Byte, compact: false, color: true })
    );
    assert_eq!(schema.location(&bracket), Some(span(45, 46)));
    assert_eq!(
        schema.labels(&bracket),
        vec![LabelEntry {
            color: ariadne::Color::Yellow,
            message: "Bracket ) is here".to_string(),
            span: span(45, 46)
        }]
    );
    let semi = Instance { case: 1, fields: vec![Value::Region(span(3, 4)), Value::Char(';')] };
    assert_eq!(schema.message(&semi), Some("Unused Semicolon: ';'".to_string()));
    assert_eq!(schema.note(&semi), Some("remove this semicolon".to_string()));
    assert_eq!(schema.kind(&semi), Severity::Warning);
    assert_eq!(schema.code(&semi), None);
    assert!(schema.config(&semi).is_none());
}

fn scenario_one() -> Schema {
    let case = CaseDecl {
        name: "Named".to_string(),
        shape: Shape::Named,
        annotations: vec![CaseAnnotation::Message(tpl("Test named: {}", vec![0]))],
        fields: vec![
            field("it", FieldType::Int, vec![]),
            field(
                "span",
                FieldType::Region,
                vec![FieldAnnotation::Here, FieldAnnotation::Label(tpl("first", vec![]))],
            ),
            field("more_span", FieldType::Region, vec![FieldAnnotation::Label(tpl("second", vec![]))]),
        ],
    };
    Schema::compile(vec![case]).unwrap()
}

fn scenario_one_instance() -> Instance {
    Instance {
        case: 0,
        fields: vec![Value::Int(1), Value::Region(span(31, 33)), Value::Region(span(9, 12))],
    }
}

#[test]
fn end_to_end_named_fields() {
    let schema = scenario_one();
    let inst = scenario_one_instance();
    let rec = schema.assemble(&inst);
    assert_eq!(rec.message, Some("Test named: 1".to_string()));
    assert_eq!(rec.labels.len(), 2);
    assert_eq!(rec.labels[0].span, span(31, 33));
    assert_eq!(rec.labels[1].span, span(9, 12));
    assert_eq!(rec.labels[0].message, "first");
    assert_eq!(rec.labels[1].message, "second");
    assert_eq!(rec.labels[0].color, ariadne::Color::Red);
    let source = "let a = 1;\nlet b = 2;\nlet c = 3;\nlet d = 4;\n";
    let text = String::from_utf8(schema.render(&inst, "scenario.rs", source).unwrap()).unwrap();
    assert!(text.contains("Test named: 1"));
}

#[test]
fn end_to_end_warning_only() {
    let case = CaseDecl {
        name: "Warn".to_string(),
        shape: Shape::Unit,
        annotations: vec![CaseAnnotation::Report(vec![ReportSetting::Kind(Severity::Warning)])],
        fields: vec![],
    };
    let schema = Schema::compile(vec![case]).unwrap();
    let inst = Instance { case: 0, fields: vec![] };
    assert_eq!(schema.code(&inst), None);
    assert!(schema.config(&inst).is_none());
    assert_eq!(schema.kind(&inst), Severity::Warning);
}

#[test]
fn end_to_end_no_annotations() {
    let case = CaseDecl {
        name: "Bare".to_string(),
        shape: Shape::Named,
        annotations: vec![],
        fields: vec![field("at", FieldType::Region, vec![]), field("n", FieldType::Int, vec![])],
    };
    let schema = Schema::compile(vec![case]).unwrap();
    let inst = Instance { case: 0, fields: vec![Value::Region(span(0, 1)), Value::Int(5)] };
    assert_eq!(schema.message(&inst), None);
    assert_eq!(schema.note(&inst), None);
    assert_eq!(schema.location(&inst), None);
    assert!(schema.labels(&inst).is_empty());
    assert_eq!(schema.kind(&inst), Severity::Error);
    assert_eq!(schema.code(&inst), None);
    assert!(schema.config(&inst).is_none());
    let r = schema.render(&inst, "bare.rs", "x");
    assert!(matches!(r, Err(RenderError::MissingRequiredField)));
}

#[test]
fn render_needs_location_even_with_message() {
    let case = CaseDecl {
        name: "NoPlace".to_string(),
        shape: Shape::Unit,
        annotations: vec![CaseAnnotation::Message(tpl("somewhere", vec![]))],
        fields: vec![],
    };
    let schema = Schema::compile(vec![case]).unwrap();
    let inst = Instance { case: 0, fields: vec![] };
    assert_eq!(schema.message(&inst), Some("somewhere".to_string()));
    let r = schema.render(&inst, "f.rs", "abc");
    assert!(matches!(r, Err(RenderError::MissingRequiredField)));
}

#[test]
fn render_needs_message_even_with_location() {
    let case = CaseDecl {
        name: "NoWords".to_string(),
        shape: Shape::Unnamed,
        annotations: vec![],
        fields: vec![field("0", FieldType::Region, vec![FieldAnnotation::Here])],
    };
    let schema = Schema::compile(vec![case]).unwrap();
    let inst = Instance { case: 0, fields: vec![Value::Region(span(1, 2))] };
    assert_eq!(schema.location(&inst), Some(span(1, 2)));
    let r = schema.render(&inst, "f.rs", "abc");
    assert!(matches!(r, Err(RenderError::MissingRequiredField)));
}

#[test]
fn render_writes_code_and_note() {
    let case = CaseDecl {
        name: "Full".to_string(),
        shape: Shape::Named,
        annotations: vec![
            CaseAnnotation::Report(vec![
                ReportSetting::Code(7),
                ReportSetting::Config(plain_config()),
            ]),
            CaseAnnotation::Message(tpl("bad {}", vec![1])),
            CaseAnnotation::Note(tpl("try {}", vec![2])),
        ],
        fields: vec![
            field(
                "at",
                FieldType::Region,
                vec![FieldAnnotation::Here, FieldAnnotation::Label(tpl("this {}", vec![1]))],
            ),
            field("what", FieldType::Text, vec![]),
            field("fix", FieldType::Text, vec![]),
        ],
    };
    let schema = Schema::compile(vec![case]).unwrap();
    let inst = Instance {
        case: 0,
        fields: vec![
            Value::Region(span(0, 3)),
            Value::Text("token".to_string()),
            Value::Text("again".to_string()),
        ],
    };
    let text = String::from_utf8(schema.render(&inst, "f.rs", "abc def").unwrap()).unwrap();
    assert!(text.contains("[07] Error: bad token"));
    assert!(text.contains("try again"));
    assert!(text.contains("this token"));
    assert!(text.contains("f.rs"));
}

#[test]
fn every_case_defaults_without_annotations() {
    let cases = vec![
        CaseDecl { name: "A".to_string(), shape: Shape::Unit, annotations: vec![], fields: vec![] },
        CaseDecl {
            name: "B".to_string(),
            shape: Shape::Unnamed,
            annotations: vec![CaseAnnotation::Report(vec![ReportSetting::Code(2)])],
            fields: vec![field("0", FieldType::Text, vec![])],
        },
        CaseDecl {
            name: "C".to_string(),
            shape: Shape::Named,
            annotations: vec![],
            fields: vec![field("s", FieldType::Region, vec![FieldAnnotation::Colored(ariadne::Color::Blue)])],
        },
    ];
    let schema = Schema::compile(cases).unwrap();
    let insts = vec![
        Instance { case: 0, fields: vec![] },
        Instance { case: 1, fields: vec![Value::Text("t".to_string())] },
        Instance { case: 2, fields: vec![Value::Region(span(0, 0))] },
    ];
    for inst in &insts {
        assert_eq!(schema.message(inst), None);
        assert_eq!(schema.note(inst), None);
        assert_eq!(schema.kind(inst), Severity::Error);
        assert!(schema.config(inst).is_none());
        assert_eq!(schema.location(inst), None);
        assert!(schema.labels(inst).is_empty());
    }
    assert_eq!(schema.code(&insts[0]), None);
    assert_eq!(schema.code(&insts[1]), Some(2));
    assert_eq!(schema.code(&insts[2]), None);
}

#[test]
fn substitution_follows_declared_order() {
    let case = CaseDecl {
        name: "Pair".to_string(),
        shape: Shape::Named,
        annotations: vec![CaseAnnotation::Message(tpl("{} then {} then {}", vec![2, 0, 2]))],
        fields: vec![
            field("a", FieldType::Int, vec![]),
            field("b", FieldType::Char, vec![]),
            field("c", FieldType::Text, vec![]),
        ],
    };
    let schema = Schema::compile(vec![case]).unwrap();
    let one = Instance {
        case: 0,
        fields: vec![Value::Int(-42), Value::Char('x'), Value::Text("z".to_string())],
    };
    assert_eq!(schema.message(&one), Some("z then -42 then z".to_string()));
    let two = Instance {
        case: 0,
        fields: vec![Value::Int(1234567), Value::Char('y'), Value::Text("z".to_string())],
    };
    assert_eq!(schema.message(&two), Some("z then 1234567 then z".to_string()));
}

#[test]
fn braces_are_escaped_by_doubling() {
    let case = CaseDecl {
        name: "Brace".to_string(),
        shape: Shape::Unnamed,
        annotations: vec![CaseAnnotation::Message(tpl("{{{}}} and }}", vec![0]))],
        fields: vec![field("0", FieldType::Char, vec![])],
    };
    let schema = Schema::compile(vec![case]).unwrap();
    let inst = Instance { case: 0, fields: vec![Value::Char('q')] };
    assert_eq!(schema.message(&inst), Some("{q} and }".to_string()));
}

#[test]
fn template_arity_counts_placeholders() {
    assert_eq!(template_arity(""), Some(0));
    assert_eq!(template_arity("a{{b}}c{}"), Some(1));
    assert_eq!(template_arity("{}{}"), Some(2));
    assert_eq!(template_arity("{x}"), None);
    assert_eq!(template_arity("a}"), None);
    assert_eq!(template_arity("{"), None);
    let r = fill_template("<{}|{}>", &vec!["p".to_string(), "q".to_string()]);
    assert_eq!(r, "<p|q>");
}

#[test]
fn labels_keep_field_order_whatever_the_marker() {
    let make = |here_on: usize| CaseDecl {
        name: "Three".to_string(),
        shape: Shape::Named,
        annotations: vec![CaseAnnotation::Message(tpl("m", vec![]))],
        fields: (0..3)
            .map(|j| {
                let mut anns = vec![FieldAnnotation::Label(tpl("L{}", vec![3]))];
                if j == here_on {
                    anns.insert(0, FieldAnnotation::Here);
                }
                field("f", FieldType::Region, anns)
            })
            .chain(std::iter::once(field("n", FieldType::Int, vec![])))
            .collect(),
    };
    let inst = Instance {
        case: 0,
        fields: vec![
            Value::Region(span(20, 21)),
            Value::Region(span(0, 1)),
            Value::Region(span(10, 11)),
            Value::Int(9),
        ],
    };
    let mut seen = Vec::new();
    for here_on in 0..3 {
        let schema = Schema::compile(vec![make(here_on)]).unwrap();
        let spans: Vec<SourceSpan> = schema.labels(&inst).iter().map(|l| l.span).collect();
        assert_eq!(spans, vec![span(20, 21), span(0, 1), span(10, 11)]);
        assert!(schema.labels(&inst).iter().all(|l| l.message == "L9"));
        seen.push(schema.location(&inst));
    }
    assert_eq!(seen, vec![Some(span(20, 21)), Some(span(0, 1)), Some(span(10, 11))]);
}

#[test]
fn accessors_repeat() {
    let schema = scenario_one();
    let inst = scenario_one_instance();
    assert_eq!(schema.message(&inst), schema.message(&inst));
    assert_eq!(schema.note(&inst), schema.note(&inst));
    assert_eq!(schema.labels(&inst), schema.labels(&inst));
    assert_eq!(schema.location(&inst), schema.location(&inst));
    assert_eq!(schema.kind(&inst), schema.kind(&inst));
    assert_eq!(schema.code(&inst), schema.code(&inst));
    assert_eq!(schema.assemble(&inst), schema.assemble(&inst));
}

#[test]
fn first_annotation_of_a_kind_wins() {
    let case = CaseDecl {
        name: "Twice".to_string(),
        shape: Shape::Named,
        annotations: vec![
            CaseAnnotation::Message(tpl("first", vec![])),
            CaseAnnotation::Report(vec![
                ReportSetting::Kind(Severity::Advice),
                ReportSetting::Code(1),
                ReportSetting::Code(5),
            ]),
            CaseAnnotation::Message(tpl("second", vec![])),
            CaseAnnotation::Report(vec![ReportSetting::Kind(Severity::Warning)]),
        ],
        fields: vec![
            field("a", FieldType::Region, vec![]),
            field("b", FieldType::Region, vec![FieldAnnotation::Here]),
            field("c", FieldType::Region, vec![FieldAnnotation::Here]),
        ],
    };
    let schema = Schema::compile(vec![case]).unwrap();
    let inst = Instance {
        case: 0,
        fields: vec![Value::Region(span(1, 2)), Value::Region(span(3, 4)), Value::Region(span(5, 6))],
    };
    assert_eq!(schema.message(&inst), Some("first".to_string()));
    assert_eq!(schema.kind(&inst), Severity::Advice);
    assert_eq!(schema.code(&inst), Some(5));
    assert_eq!(schema.location(&inst), Some(span(3, 4)));
}

#[test]
fn first_colour_of_a_field_applies_wherever_it_stands() {
    let case = CaseDecl {
        name: "Colours".to_string(),
        shape: Shape::Named,
        annotations: vec![],
        fields: vec![
            field(
                "s",
                FieldType::Region,
                vec![
                    FieldAnnotation::Label(tpl("before", vec![])),
                    FieldAnnotation::Colored(ariadne::Color::Green),
                    FieldAnnotation::Label(tpl("after", vec![])),
                    FieldAnnotation::Colored(ariadne::Color::Blue),
                ],
            ),
            field("t", FieldType::Region, vec![FieldAnnotation::Label(tpl("plain", vec![]))]),
        ],
    };
    let schema = Schema::compile(vec![case]).unwrap();
    let inst = Instance { case: 0, fields: vec![Value::Region(span(2, 5)), Value::Region(span(6, 7))] };
    let labels = schema.labels(&inst);
    assert_eq!(labels.len(), 3);
    assert_eq!(labels[0].color, ariadne::Color::Green);
    assert_eq!(labels[0].message, "before");
    assert_eq!(labels[1].color, ariadne::Color::Green);
    assert_eq!(labels[1].message, "after");
    assert_eq!(labels[2].color, ariadne::Color::Red);
}

#[test]
fn unit_case_with_fields_is_refused() {
    let ok = CaseDecl { name: "Ok".to_string(), shape: Shape::Unit, annotations: vec![], fields: vec![] };
    let bad = CaseDecl {
        name: "Bad".to_string(),
        shape: Shape::Unit,
        annotations: vec![],
        fields: vec![field("x", FieldType::Int, vec![])],
    };
    assert_eq!(
        Schema::compile(vec![ok, bad]).err(),
        Some(SchemaError::UnitCaseWithFields { case: 1 })
    );
}

#[test]
fn bad_message_templates_are_refused() {
    let with = |t: Template| CaseDecl {
        name: "T".to_string(),
        shape: Shape::Named,
        annotations: vec![CaseAnnotation::Note(t)],
        fields: vec![field("n", FieldType::Int, vec![]), field("s", FieldType::Region, vec![])],
    };
    let expected = Some(SchemaError::BadTemplate { case: 0, field: None });
    assert_eq!(Schema::compile(vec![with(tpl("{} {}", vec![0]))]).err(), expected);
    assert_eq!(Schema::compile(vec![with(tpl("{oops}", vec![]))]).err(), expected);
    assert_eq!(Schema::compile(vec![with(tpl("{}", vec![7]))]).err(), expected);
    assert_eq!(Schema::compile(vec![with(tpl("{}", vec![1]))]).err(), expected);
    assert!(Schema::compile(vec![with(tpl("{}", vec![0]))]).is_ok());
}

#[test]
fn bad_label_templates_are_refused() {
    let case = CaseDecl {
        name: "L".to_string(),
        shape: Shape::Named,
        annotations: vec![],
        fields: vec![
            field("a", FieldType::Region, vec![]),
            field("b", FieldType::Region, vec![FieldAnnotation::Label(tpl("{}", vec![]))]),
        ],
    };
    assert_eq!(
        Schema::compile(vec![case]).err(),
        Some(SchemaError::BadTemplate { case: 0, field: Some(1) })
    );
}

#[test]
fn markers_need_span_fields() {
    let here = CaseDecl {
        name: "H".to_string(),
        shape: Shape::Named,
        annotations: vec![],
        fields: vec![field("n", FieldType::Int, vec![FieldAnnotation::Here])],
    };
    let label = CaseDecl {
        name: "L".to_string(),
        shape: Shape::Named,
        annotations: vec![],
        fields: vec![
            field("s", FieldType::Region, vec![]),
            field("t", FieldType::Text, vec![FieldAnnotation::Label(tpl("x", vec![]))]),
        ],
    };
    let fine = CaseDecl { name: "F".to_string(), shape: Shape::Unit, annotations: vec![], fields: vec![] };
    assert_eq!(
        Schema::compile(vec![fine.clone(), here]).err(),
        Some(SchemaError::NotASpan { case: 1, field: 0 })
    );
    assert_eq!(
        Schema::compile(vec![label, fine]).err(),
        Some(SchemaError::NotASpan { case: 0, field: 1 })
    );
}

#[test]
fn instances_must_match_their_case() {
    let schema = lexing_schema();
    assert!(schema.check_instance(&Instance {
        case: 1,
        fields: vec![Value::Region(span(0, 1)), Value::Char(';')]
    }));
    assert!(!schema.check_instance(&Instance { case: 2, fields: vec![] }));
    assert!(!schema.check_instance(&Instance { case: 0, fields: vec![Value::Region(span(0, 1))] }));
    assert!(!schema.check_instance(&Instance {
        case: 0,
        fields: vec![Value::Char(';'), Value::Region(span(0, 1))]
    }));
}

#[test]
fn report_settings_resolve_in_order() {
    let m = settle_report(&vec![]);
    assert_eq!(m.kind, Severity::Error);
    assert_eq!(m.code, None);
    let m = settle_report(&vec![
        ReportSetting::Code(1),
        ReportSetting::Kind(Severity::Advice),
        ReportSetting::Kind(Severity::Warning),
    ]);
    assert_eq!(m.kind, Severity::Warning);
    assert_eq!(m.code, Some(1));
    assert!(m.config.is_none());
}

#[test]
fn integer_and_char_texts() {
    assert_eq!(text_of(&Value::Int(0)), "0");
    assert_eq!(text_of(&Value::Int(-9223372036854775808)), "-9223372036854775808");
    assert_eq!(text_of(&Value::Int(907)), "907");
    assert_eq!(text_of(&Value::Char('é')), "é");
    assert_eq!(text_of(&Value::Text("abc".to_string())), "abc");
}

#[test]
fn label_spans_must_be_ordered() {
    let good = vec![LabelEntry { color: ariadne::Color::Red, message: "a".to_string(), span: span(2, 2) }];
    let bad = vec![
        LabelEntry { color: ariadne::Color::Red, message: "a".to_string(), span: span(0, 1) },
        LabelEntry { color: ariadne::Color::Red, message: "b".to_string(), span: span(5, 4) },
    ];
    assert!(labels_ordered(&good));
    assert!(!labels_ordered(&bad));
    assert!(labels_ordered(&vec![]));
}

fn byte_case(label_span_field: bool) -> Schema {
    let at_anns = if label_span_field {
        vec![FieldAnnotation::Here, FieldAnnotation::Label(tpl("here", vec![]))]
    } else {
        vec![FieldAnnotation::Here]
    };
    let case = CaseDecl {
        name: "Bytes".to_string(),
        shape: Shape::Named,
        annotations: vec![
            CaseAnnotation::Report(vec![ReportSetting::Config(plain_config())]),
            CaseAnnotation::Message(tpl("m", vec![])),
        ],
        fields: vec![field("at", FieldType::Region, at_anns)],
    };
    Schema::compile(vec![case]).unwrap()
}

#[test]
fn byte_offsets_must_fall_on_character_boundaries() {
    let schema = byte_case(true);
    let past_end = Instance { case: 0, fields: vec![Value::Region(span(0, 3))] };
    assert!(!fits_source(&schema.assemble(&past_end), "ab"));
    let inside_char = Instance { case: 0, fields: vec![Value::Region(span(1, 2))] };
    assert!(!fits_source(&schema.assemble(&inside_char), "é!"));
    let fine = Instance { case: 0, fields: vec![Value::Region(span(0, 2))] };
    assert!(fits_source(&schema.assemble(&fine), "é!"));
    let text = String::from_utf8(schema.render(&fine, "b.rs", "é!").unwrap()).unwrap();
    assert!(text.contains("here"));
    let backwards = Instance { case: 0, fields: vec![Value::Region(span(2, 1))] };
    assert!(!fits_source(&schema.assemble(&backwards), "abc"));
}

#[test]
fn character_offsets_need_no_boundaries() {
    let case = CaseDecl {
        name: "Chars".to_string(),
        shape: Shape::Named,
        annotations: vec![CaseAnnotation::Message(tpl("m", vec![]))],
        fields: vec![field(
            "at",
            FieldType::Region,
            vec![FieldAnnotation::Here, FieldAnnotation::Label(tpl("x", vec![]))],
        )],
    };
    let schema = Schema::compile(vec![case]).unwrap();
    let inst = Instance { case: 0, fields: vec![Value::Region(span(1, 9))] };
    let rec = schema.assemble(&inst);
    assert!(fits_source(&rec, "é!"));
    assert!(emit(rec, "c.rs", "é!").is_ok());
}

#[test]
fn incomplete_records_build_no_report() {
    let schema = byte_case(false);
    let mut rec = schema.assemble(&Instance { case: 0, fields: vec![Value::Region(span(0, 1))] });
    assert!(build_report(rec.clone(), "f.rs").is_some());
    rec.message = None;
    assert!(build_report(rec.clone(), "f.rs").is_none());
    assert!(matches!(emit(rec, "f.rs", "abc"), Err(RenderError::MissingRequiredField)));
}
