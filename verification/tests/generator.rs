use custom_debug::generate;
use custom_debug::{
    impl_debug, Annotation, AnnotationForm, AnnotationValue, Diagnostic, DiagnosticKind, Expansion,
    FieldDescription, Shape, Span, TypeDescription,
};

fn text_annotation(key: &str, text: &str, id: usize) -> Annotation {
    Annotation {
        form: AnnotationForm::NameValue {
            key: key.to_string(),
            value: AnnotationValue::Text(text.to_string()),
        },
        span: Span { id },
    }
}

fn other_value_annotation(key: &str, id: usize) -> Annotation {
    Annotation {
        form: AnnotationForm::NameValue { key: key.to_string(), value: AnnotationValue::Other },
        span: Span { id },
    }
}

fn marker(id: usize) -> Annotation {
    Annotation { form: AnnotationForm::Other, span: Span { id } }
}

fn field(name: &str, annotations: Vec<Annotation>) -> FieldDescription {
    FieldDescription { name: name.to_string(), annotations }
}

fn record(name: &str, fields: Vec<FieldDescription>) -> TypeDescription {
    TypeDescription { name: name.to_string(), span: Span { id: 0 }, shape: Shape::NamedRecord, fields }
}

fn of_shape(shape: Shape) -> TypeDescription {
    TypeDescription {
        name: "Choice".to_string(),
        span: Span { id: 7 },
        shape,
        fields: vec![field("a", vec![])],
    }
}

const UNSUPPORTED: &str =
    "must define a record with named fields, not an alternative (variant/enum) type.";
const MALFORMED: &str = "expected `debug = \"...\"`";

#[test]
fn record_without_annotations_renders_every_field_by_default() {
    let input = record("Point", vec![field("x", vec![]), field("y", vec![])]);
    let expected = "impl std::fmt::Debug for Point {\n    fn fmt(&self, fmt: &mut std::fmt::Formatter) -> std::fmt::Result {\n        fmt.debug_struct(stringify!(Point))\n            .field(stringify!(x), &self.x)\n            .field(stringify!(y), &self.y)\n            .finish()\n    }\n}\n";
    assert_eq!(impl_debug(&input), Ok(expected.to_string()));
    assert_eq!(generate::derive(&input), Expansion::Implementation(expected.to_string()));
}

#[test]
fn record_without_fields_has_no_entries() {
    let input = record("Empty", vec![]);
    let expected = "impl std::fmt::Debug for Empty {\n    fn fmt(&self, fmt: &mut std::fmt::Formatter) -> std::fmt::Result {\n        fmt.debug_struct(stringify!(Empty))\n            .finish()\n    }\n}\n";
    assert_eq!(impl_debug(&input), Ok(expected.to_string()));
}

#[test]
fn binary_format_is_applied_to_the_annotated_field() {
    let input = record("Bits", vec![field("x", vec![text_annotation("debug", "{:b}", 1)])]);
    let expected = "impl std::fmt::Debug for Bits {\n    fn fmt(&self, fmt: &mut std::fmt::Formatter) -> std::fmt::Result {\n        fmt.debug_struct(stringify!(Bits))\n            .field(stringify!(x), &format_args!(\"{:b}\", &self.x))\n            .finish()\n    }\n}\n";
    assert_eq!(impl_debug(&input), Ok(expected.to_string()));
    let text = impl_debug(&input).unwrap();
    assert!(!text.contains(".field(stringify!(x), &self.x)"));
}

#[test]
fn mixed_fields_keep_the_order_of_the_declaration() {
    let input = record(
        "Mixed",
        vec![
            field("first", vec![text_annotation("debug", "{:>8}", 1)]),
            field("second", vec![]),
            field("third", vec![text_annotation("debug", "0x{:x}", 2)]),
            field("fourth", vec![marker(3)]),
        ],
    );
    let expected = "impl std::fmt::Debug for Mixed {\n    fn fmt(&self, fmt: &mut std::fmt::Formatter) -> std::fmt::Result {\n        fmt.debug_struct(stringify!(Mixed))\n            .field(stringify!(first), &format_args!(\"{:>8}\", &self.first))\n            .field(stringify!(second), &self.second)\n            .field(stringify!(third), &format_args!(\"0x{:x}\", &self.third))\n            .field(stringify!(fourth), &self.fourth)\n            .finish()\n    }\n}\n";
    assert_eq!(impl_debug(&input), Ok(expected.to_string()));
}

#[test]
fn example_record_with_one_override() {
    let input =
        record("Foo", vec![field("a", vec![]), field("b", vec![text_annotation("debug", "{}!", 1)])]);
    let expected = "impl std::fmt::Debug for Foo {\n    fn fmt(&self, fmt: &mut std::fmt::Formatter) -> std::fmt::Result {\n        fmt.debug_struct(stringify!(Foo))\n            .field(stringify!(a), &self.a)\n            .field(stringify!(b), &format_args!(\"{}!\", &self.b))\n            .finish()\n    }\n}\n";
    assert_eq!(generate::derive(&input), Expansion::Implementation(expected.to_string()));
}

#[test]
fn variant_type_is_refused_without_any_implementation() {
    let input = of_shape(Shape::Variant);
    assert_eq!(
        impl_debug(&input),
        Err(Diagnostic {
            kind: DiagnosticKind::UnsupportedShape,
            message: UNSUPPORTED.to_string(),
            span: Span { id: 7 },
        })
    );
    let expected = format!("compile_error! {{ \"{}\" }}\n", UNSUPPORTED);
    assert_eq!(
        generate::derive(&input),
        Expansion::CompileError { text: expected, span: Span { id: 7 } }
    );
}

#[test]
fn every_shape_but_the_named_record_is_refused() {
    for shape in [Shape::TupleRecord, Shape::UnitRecord, Shape::Variant, Shape::Union] {
        let outcome = impl_debug(&of_shape(shape));
        assert_eq!(outcome, Err(Diagnostic::unsupported_shape(Span { id: 7 })));
    }
    assert!(impl_debug(&of_shape(Shape::NamedRecord)).is_ok());
}

#[test]
fn shape_is_checked_before_the_annotations() {
    let mut input = of_shape(Shape::Variant);
    input.fields = vec![field("a", vec![text_annotation("other", "x", 3)])];
    assert_eq!(impl_debug(&input).unwrap_err().kind, DiagnosticKind::UnsupportedShape);
}

#[test]
fn foreign_key_is_a_malformed_annotation() {
    let input = record(
        "Foo",
        vec![field("a", vec![]), field("b", vec![marker(4), text_annotation("other", "x", 5)])],
    );
    assert_eq!(
        impl_debug(&input),
        Err(Diagnostic {
            kind: DiagnosticKind::MalformedAnnotation,
            message: MALFORMED.to_string(),
            span: Span { id: 5 },
        })
    );
    assert_eq!(
        generate::derive(&input),
        Expansion::CompileError {
            text: "compile_error! { \"expected `debug = \\\"...\\\"`\" }\n".to_string(),
            span: Span { id: 5 },
        }
    );
}

#[test]
fn first_malformed_field_gives_the_diagnostic() {
    let input = record(
        "Foo",
        vec![
            field("a", vec![text_annotation("debug", "{}", 1)]),
            field("b", vec![text_annotation("doc", "about b", 2)]),
            field("c", vec![text_annotation("other", "x", 3)]),
        ],
    );
    assert_eq!(impl_debug(&input), Err(Diagnostic::malformed_annotation(Span { id: 2 })));
}

#[test]
fn override_before_a_foreign_key_wins() {
    let input = record(
        "Foo",
        vec![field("a", vec![text_annotation("debug", "{}", 1), text_annotation("other", "x", 2)])],
    );
    let text = impl_debug(&input).unwrap();
    assert!(text.contains(".field(stringify!(a), &format_args!(\"{}\", &self.a))"));
}

#[test]
fn first_of_two_overrides_wins() {
    let input = record(
        "Foo",
        vec![field("a", vec![text_annotation("debug", "{:?}", 1), text_annotation("debug", "{}", 2)])],
    );
    let text = impl_debug(&input).unwrap();
    assert!(text.contains("&format_args!(\"{:?}\", &self.a)"));
    assert!(!text.contains("&format_args!(\"{}\", &self.a)"));
}

#[test]
fn value_that_is_no_text_is_passed_over() {
    let input = record("Foo", vec![field("a", vec![other_value_annotation("debug", 1)])]);
    let text = impl_debug(&input).unwrap();
    assert!(text.contains(".field(stringify!(a), &self.a)"));
    let input = record(
        "Foo",
        vec![field("a", vec![other_value_annotation("debug", 1), text_annotation("debug", "{}", 2)])],
    );
    let text = impl_debug(&input).unwrap();
    assert!(text.contains(".field(stringify!(a), &format_args!(\"{}\", &self.a))"));
}

#[test]
fn foreign_key_with_a_value_that_is_no_text_is_malformed() {
    let input = record("Foo", vec![field("a", vec![other_value_annotation("other", 9)])]);
    assert_eq!(impl_debug(&input), Err(Diagnostic::malformed_annotation(Span { id: 9 })));
}

#[test]
fn two_runs_give_the_same_text() {
    let input = record(
        "Foo",
        vec![field("a", vec![]), field("b", vec![text_annotation("debug", "{}\u{e9}\n", 1)])],
    );
    let first = generate::derive(&input);
    let second = generate::derive(&input);
    assert_eq!(first, second);
    assert_eq!(generate::derive(&input.clone()), first);
    let refused = of_shape(Shape::Union);
    assert_eq!(generate::derive(&refused), generate::derive(&refused));
}

#[test]
fn format_string_is_written_as_a_literal() {
    let input =
        record("Foo", vec![field("a", vec![text_annotation("debug", "\"{}\" \\ \t", 1)])]);
    let text = impl_debug(&input).unwrap();
    assert!(text.contains("&format_args!(\"\\\"{}\\\" \\\\ \\u{9}\", &self.a)"));
}
