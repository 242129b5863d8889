use ddl::integer::BigInteger;
use ddl::literal::parse_int_literal;
use ddl::core_syntax::{
    Alias as CoreAlias, Constant, Global, Globals, Head, IntBranches, Item as CoreItem, Spine,
    Term as CoreTerm, TypeField as CoreTypeField, Universe, Value,
};
use ddl::diagnostics::{Diagnostic, Message, Severity};
use ddl::elaborate::{check_term, elaborate_module, elaborate_universe, synth_term, Context};
use ddl::source::{ByteRange, FileId, Span};
use ddl::surface::{
    Alias, Item, Module, Pattern, StructType, Term as SurfaceTerm, TypeField,
};

fn big(text: &str) -> BigInteger {
    parse_int_literal(&text.to_string()).unwrap()
}

fn sp(a: u32, b: u32) -> Span {
    Span::Range(ByteRange::new(FileId::new(1).unwrap(), a, b))
}

fn name(s: &str, at: u32) -> SurfaceTerm {
    SurfaceTerm::Name(sp(at, at + 1), s.to_string())
}

fn lit(s: &str, at: u32) -> SurfaceTerm {
    SurfaceTerm::NumberLiteral(sp(at, at + 1), s.to_string())
}

fn global(s: &str) -> CoreTerm {
    CoreTerm::Global(s.to_string())
}

fn neutral(s: &str) -> Value {
    Value::Neutral(Head::Global(s.to_string()), Spine::Empty)
}

fn number_pattern(s: &str, at: u32) -> Pattern {
    Pattern::NumberLiteral(sp(at, at + 1), s.to_string())
}

fn name_pattern(s: &str, at: u32) -> Pattern {
    Pattern::Name(sp(at, at + 1), s.to_string())
}

/// The standard builtins, and integers `a`, `b`, `c`, `d`, `x`, and `f : Int -> Int`.
fn globals() -> Globals {
    let mut g = Globals::standard();
    for n in ["a", "b", "c", "d", "x"] {
        g.entries.push(Global { name: n.to_string(), ty: global("Int") });
    }
    g.entries.push(Global {
        name: "f".to_string(),
        ty: CoreTerm::FunctionType(Box::new(global("Int")), Box::new(global("Int"))),
    });
    g
}

fn error(message: Message, span: Span) -> Diagnostic {
    Diagnostic { severity: Severity::Error, message, primary: span, secondary: None }
}

fn warning(message: Message, span: Span) -> Diagnostic {
    Diagnostic { severity: Severity::Warning, message, primary: span, secondary: None }
}

fn check(t: &SurfaceTerm, expected: &Value) -> (CoreTerm, Vec<Diagnostic>) {
    let g = globals();
    let context = Context::new(&g, FileId::new(1).unwrap());
    let mut diags = Vec::new();
    let r = check_term(&context, t, expected, &mut diags);
    (r, diags)
}

fn synth(t: &SurfaceTerm) -> (CoreTerm, Value, Vec<Diagnostic>) {
    let g = globals();
    let context = Context::new(&g, FileId::new(1).unwrap());
    let mut diags = Vec::new();
    let (c, ty) = synth_term(&context, t, &mut diags);
    (c, ty, diags)
}

fn elaborate(items: Vec<Item>) -> (Vec<CoreItem>, Vec<Diagnostic>) {
    let g = globals();
    let module = Module { file_id: FileId::new(1).unwrap(), doc: "doc".to_string(), items };
    let mut diags = Vec::new();
    let r = elaborate_module(&g, &module, &mut diags);
    assert_eq!(r.file_id, FileId::new(1).unwrap());
    assert_eq!(r.doc, "doc");
    (r.items, diags)
}

fn int_match(branches: Vec<(Pattern, SurfaceTerm)>) -> SurfaceTerm {
    SurfaceTerm::Match(sp(0, 40), Box::new(name("x", 6)), branches)
}

fn cons(k: &str, t: CoreTerm, rest: IntBranches) -> IntBranches {
    IntBranches::Cons(big(k), Box::new(t), Box::new(rest))
}

#[test]
fn integer_match_keeps_first_duplicate() {
    let t = int_match(vec![
        (number_pattern("0", 10), name("a", 12)),
        (number_pattern("1", 14), name("b", 16)),
        (number_pattern("0", 18), name("c", 20)),
        (name_pattern("_", 22), name("d", 24)),
    ]);
    let (r, diags) = check(&t, &neutral("Int"));
    let expected = CoreTerm::IntElim(
        Box::new(global("x")),
        cons("0", global("a"), cons("1", global("b"), IntBranches::Nil)),
        Box::new(global("d")),
    );
    assert_eq!(r, expected);
    assert_eq!(diags, vec![warning(Message::UnreachablePattern, sp(18, 19))]);
}

#[test]
fn integer_match_literal_after_default_is_unreachable() {
    let t = int_match(vec![
        (name_pattern("_", 10), name("d", 12)),
        (number_pattern("0", 14), name("a", 16)),
    ]);
    let (r, diags) = check(&t, &neutral("Int"));
    let expected =
        CoreTerm::IntElim(Box::new(global("x")), IntBranches::Nil, Box::new(global("d")));
    assert_eq!(r, expected);
    assert_eq!(diags, vec![warning(Message::UnreachablePattern, sp(14, 15))]);
}

#[test]
fn integer_match_second_default_is_unreachable() {
    let t = int_match(vec![
        (name_pattern("_", 10), name("d", 12)),
        (name_pattern("y", 14), name("a", 16)),
    ]);
    let (r, diags) = check(&t, &neutral("Int"));
    let expected =
        CoreTerm::IntElim(Box::new(global("x")), IntBranches::Nil, Box::new(global("d")));
    assert_eq!(r, expected);
    assert_eq!(diags, vec![warning(Message::UnreachablePattern, sp(14, 15))]);
}

#[test]
fn integer_match_orders_keys_ascending() {
    let t = int_match(vec![
        (number_pattern("5", 10), name("a", 12)),
        (number_pattern("-3", 14), name("b", 16)),
        (number_pattern("2", 18), name("c", 20)),
        (name_pattern("_", 22), name("d", 24)),
    ]);
    let (r, diags) = check(&t, &neutral("Int"));
    let expected = CoreTerm::IntElim(
        Box::new(global("x")),
        cons("-3", global("b"), cons("2", global("c"), cons("5", global("a"), IntBranches::Nil))),
        Box::new(global("d")),
    );
    assert_eq!(r, expected);
    assert!(diags.is_empty());
}

#[test]
fn integer_match_without_default() {
    let t = int_match(vec![
        (number_pattern("0", 10), name("a", 12)),
        (number_pattern("1", 14), name("b", 16)),
    ]);
    let (r, diags) = check(&t, &neutral("Int"));
    let expected = CoreTerm::IntElim(
        Box::new(global("x")),
        cons("0", global("a"), cons("1", global("b"), IntBranches::Nil)),
        Box::new(CoreTerm::Error),
    );
    assert_eq!(r, expected);
    assert_eq!(diags, vec![error(Message::NoDefaultPattern, sp(6, 7))]);
}

#[test]
fn integer_match_invalid_literal_pattern() {
    let t = int_match(vec![
        (number_pattern("0z", 10), name("a", 12)),
        (name_pattern("_", 14), name("d", 16)),
    ]);
    let (r, diags) = check(&t, &neutral("Int"));
    let expected =
        CoreTerm::IntElim(Box::new(global("x")), IntBranches::Nil, Box::new(global("d")));
    assert_eq!(r, expected);
    assert_eq!(diags, vec![error(Message::InvalidNumericLiteral, sp(10, 11))]);
}

#[test]
fn boolean_match_compiles_to_eliminator() {
    let t = SurfaceTerm::Match(
        sp(0, 30),
        Box::new(name("true", 6)),
        vec![(name_pattern("false", 10), name("b", 12)), (name_pattern("true", 14), name("a", 16))],
    );
    let (r, diags) = check(&t, &neutral("Int"));
    let expected = CoreTerm::BoolElim(
        Box::new(global("true")),
        Box::new(global("a")),
        Box::new(global("b")),
    );
    assert_eq!(r, expected);
    assert!(diags.is_empty());
}

#[test]
fn boolean_match_missing_and_repeated_arms() {
    let t = SurfaceTerm::Match(
        sp(0, 30),
        Box::new(name("true", 6)),
        vec![
            (name_pattern("true", 10), name("a", 12)),
            (name_pattern("true", 14), name("b", 16)),
            (number_pattern("1", 18), name("c", 20)),
        ],
    );
    let (r, diags) = check(&t, &neutral("Int"));
    let expected = CoreTerm::BoolElim(
        Box::new(global("true")),
        Box::new(global("a")),
        Box::new(CoreTerm::Error),
    );
    assert_eq!(r, expected);
    assert_eq!(
        diags,
        vec![
            warning(Message::UnreachablePattern, sp(14, 15)),
            error(Message::UnsupportedPattern, sp(18, 19)),
            error(Message::MissingBoolPattern, sp(0, 30)),
        ]
    );
}

#[test]
fn match_on_unsupported_type() {
    let t = SurfaceTerm::Match(
        sp(0, 30),
        Box::new(SurfaceTerm::Host(sp(6, 10))),
        vec![(name_pattern("_", 14), name("a", 16))],
    );
    let (r, diags) = check(&t, &neutral("Int"));
    assert_eq!(r, CoreTerm::Error);
    assert_eq!(diags, vec![error(Message::UnsupportedPatternType, sp(6, 10))]);
}

#[test]
fn match_in_synthesis_is_ambiguous() {
    let t = int_match(vec![(name_pattern("_", 10), name("d", 12))]);
    let (r, ty, diags) = synth(&t);
    assert_eq!((r, ty), (CoreTerm::Error, Value::Error));
    assert_eq!(diags, vec![error(Message::AmbiguousMatchExpression, sp(0, 40))]);
}

#[test]
fn if_checks_branches_against_expected() {
    let t = SurfaceTerm::If(
        sp(0, 20),
        Box::new(name("false", 3)),
        Box::new(lit("1", 10)),
        Box::new(lit("2", 15)),
    );
    let (r, diags) = check(&t, &neutral("Int"));
    let expected = CoreTerm::BoolElim(
        Box::new(global("false")),
        Box::new(CoreTerm::Constant(Constant::Int(big("1")))),
        Box::new(CoreTerm::Constant(Constant::Int(big("2")))),
    );
    assert_eq!(r, expected);
    assert!(diags.is_empty());
}

#[test]
fn if_in_synthesis_with_different_branch_types() {
    let t = SurfaceTerm::If(
        sp(0, 20),
        Box::new(name("true", 3)),
        Box::new(name("a", 10)),
        Box::new(SurfaceTerm::Host(sp(15, 19))),
    );
    let (r, ty, diags) = synth(&t);
    assert_eq!((r, ty), (CoreTerm::Error, Value::Error));
    assert_eq!(diags, vec![error(Message::TypeMismatch, sp(15, 19))]);
}

#[test]
fn if_in_synthesis_with_equal_branch_types() {
    let t = SurfaceTerm::If(
        sp(0, 20),
        Box::new(name("true", 3)),
        Box::new(name("a", 10)),
        Box::new(name("b", 15)),
    );
    let (r, ty, diags) = synth(&t);
    let expected = CoreTerm::BoolElim(
        Box::new(global("true")),
        Box::new(global("a")),
        Box::new(global("b")),
    );
    assert_eq!((r, ty), (expected, neutral("Int")));
    assert!(diags.is_empty());
}

#[test]
fn literals_classified_by_expected_type() {
    assert_eq!(check(&lit("42", 0), &neutral("Int")), (CoreTerm::Constant(Constant::Int(big("42"))), vec![]));
    assert_eq!(check(&lit("-7", 0), &neutral("Int")), (CoreTerm::Constant(Constant::Int(big("-7"))), vec![]));
    assert_eq!(
        check(&lit("1.5", 0), &neutral("F32")),
        (CoreTerm::Constant(Constant::F32("1.5".to_string())), vec![])
    );
    assert_eq!(
        check(&lit("2.5", 0), &neutral("F64")),
        (CoreTerm::Constant(Constant::F64("2.5".to_string())), vec![])
    );
}

#[test]
fn literal_that_does_not_parse() {
    let (r, diags) = check(&lit("1x", 0), &neutral("Int"));
    assert_eq!(r, CoreTerm::Error);
    assert_eq!(diags, vec![error(Message::InvalidNumericLiteral, sp(0, 1))]);
}

#[test]
fn literal_at_unsupported_type() {
    let (r, diags) = check(&lit("1", 0), &neutral("Bool"));
    assert_eq!(r, CoreTerm::Error);
    assert_eq!(diags, vec![error(Message::NumericLiteralNotSupported, sp(0, 1))]);
    let (r, diags) = check(&lit("1", 0), &Value::Universe(Universe::Host));
    assert_eq!(r, CoreTerm::Error);
    assert_eq!(diags, vec![error(Message::NumericLiteralNotSupported, sp(0, 1))]);
}

#[test]
fn literal_in_synthesis_is_ambiguous() {
    let (r, ty, diags) = synth(&lit("1", 4));
    assert_eq!((r, ty), (CoreTerm::Error, Value::Error));
    assert_eq!(diags, vec![error(Message::AmbiguousNumericLiteral, sp(4, 5))]);
}

#[test]
fn checking_against_error_is_silent() {
    for t in [lit("1", 0), name("nowhere", 0), SurfaceTerm::Kind(sp(0, 4)), name("a", 0)] {
        assert_eq!(check(&t, &Value::Error), (CoreTerm::Error, vec![]));
    }
}

#[test]
fn error_subterms_add_no_diagnostics() {
    let ann = SurfaceTerm::Ann(Box::new(lit("1", 0)), Box::new(SurfaceTerm::Error(sp(4, 5))));
    let (r, ty, diags) = synth(&ann);
    assert_eq!(r, CoreTerm::Ann(Box::new(CoreTerm::Error), Box::new(CoreTerm::Error)));
    assert_eq!(ty, Value::Error);
    assert!(diags.is_empty());
    let app = SurfaceTerm::FunctionElim(
        Box::new(SurfaceTerm::Error(sp(0, 1))),
        vec![lit("1", 2), name("nowhere", 4)],
    );
    assert_eq!(synth(&app), (CoreTerm::Error, Value::Error, vec![]));
}

#[test]
fn unknown_name_is_reported() {
    let (r, ty, diags) = synth(&name("nowhere", 3));
    assert_eq!((r, ty), (CoreTerm::Error, Value::Error));
    assert_eq!(diags, vec![error(Message::VarNameNotFound, sp(3, 4))]);
}

#[test]
fn kind_has_no_type() {
    let (r, ty, diags) = synth(&SurfaceTerm::Kind(sp(0, 4)));
    assert_eq!((r, ty), (CoreTerm::Error, Value::Error));
    assert_eq!(diags, vec![error(Message::KindHasNoType, sp(0, 4))]);
}

#[test]
fn universes_synthesize_kind() {
    let (r, ty, diags) = synth(&SurfaceTerm::Format(sp(0, 6)));
    assert_eq!((r, ty), (CoreTerm::Universe(Universe::Format), Value::Universe(Universe::Kind)));
    assert!(diags.is_empty());
}

#[test]
fn annotation_that_is_not_a_type() {
    let t = SurfaceTerm::Ann(Box::new(lit("1", 0)), Box::new(name("a", 4)));
    let (r, ty, diags) = synth(&t);
    assert_eq!(r, CoreTerm::Ann(Box::new(CoreTerm::Error), Box::new(CoreTerm::Error)));
    assert_eq!(ty, Value::Error);
    assert_eq!(diags, vec![error(Message::UniverseMismatch, sp(4, 5))]);
}

/// A term classified at `u`: `Int` is a host type, `F32` a format, and the
/// keyword `Host` a kind.
fn classified_at(u: Universe, at: u32) -> (SurfaceTerm, CoreTerm) {
    match u {
        Universe::Host => (name("Int", at), global("Int")),
        Universe::Format => (name("F32", at), global("F32")),
        Universe::Kind => (SurfaceTerm::Host(sp(at, at + 1)), CoreTerm::Universe(Universe::Host)),
    }
}

#[test]
fn universe_keywords_are_classified_at_kind() {
    let g = globals();
    let context = Context::new(&g, FileId::new(1).unwrap());
    for (t, u) in [
        (SurfaceTerm::Host(sp(0, 4)), Universe::Host),
        (SurfaceTerm::Format(sp(0, 6)), Universe::Format),
        (SurfaceTerm::Kind(sp(0, 4)), Universe::Kind),
    ] {
        let mut diags = Vec::new();
        let r = elaborate_universe(&context, &t, &mut diags);
        assert_eq!(r, (CoreTerm::Universe(u), Some(Universe::Kind)));
        assert!(diags.is_empty());
    }
}

#[test]
fn function_type_universe_table() {
    let all = [Universe::Host, Universe::Format, Universe::Kind];
    let mut good = 0;
    for p in all {
        for b in all {
            let (sp_, cp) = classified_at(p, 0);
            let (sb, cb) = classified_at(b, 5);
            let t = SurfaceTerm::FunctionType(Box::new(sp_), Box::new(sb));
            let (r, ty, diags) = synth(&t);
            let expected = match (p, b) {
                (Universe::Host, Universe::Host) => Some(Universe::Host),
                (Universe::Host, Universe::Kind) | (Universe::Kind, Universe::Kind) => {
                    Some(Universe::Kind)
                }
                _ => None,
            };
            match expected {
                Some(u) => {
                    good += 1;
                    let core = CoreTerm::FunctionType(Box::new(cp), Box::new(cb));
                    assert_eq!((r, ty), (core, Value::Universe(u)));
                    assert!(diags.is_empty());
                }
                None => {
                    assert_eq!((r, ty), (CoreTerm::Error, Value::Error));
                    assert_eq!(diags, vec![error(Message::IllTypedFunctionType, sp(0, 6))]);
                }
            }
        }
    }
    assert_eq!(good, 3);
}

#[test]
fn function_type_of_host_types() {
    let t = SurfaceTerm::FunctionType(Box::new(name("Int", 0)), Box::new(name("Bool", 7)));
    let (r, ty, diags) = synth(&t);
    assert_eq!(
        (r, ty),
        (
            CoreTerm::FunctionType(Box::new(global("Int")), Box::new(global("Bool"))),
            Value::Universe(Universe::Host)
        )
    );
    assert!(diags.is_empty());
}

#[test]
fn application_checks_arguments() {
    let t = SurfaceTerm::FunctionElim(Box::new(name("f", 0)), vec![lit("3", 2)]);
    let (r, ty, diags) = synth(&t);
    assert_eq!(
        r,
        CoreTerm::FunctionElim(Box::new(global("f")), Box::new(CoreTerm::Constant(Constant::Int(big("3")))))
    );
    assert_eq!(ty, neutral("Int"));
    assert!(diags.is_empty());
}

#[test]
fn applying_too_many_arguments() {
    let t = SurfaceTerm::FunctionElim(Box::new(name("f", 0)), vec![lit("3", 2), lit("4", 4)]);
    let (r, ty, diags) = synth(&t);
    assert_eq!((r, ty), (CoreTerm::Error, Value::Error));
    assert_eq!(
        diags,
        vec![Diagnostic {
            severity: Severity::Error,
            message: Message::NotAFunction,
            primary: sp(0, 1),
            secondary: Some(sp(4, 5)),
        }]
    );
}

#[test]
fn checking_reports_type_mismatch() {
    let (r, diags) = check(&name("a", 2), &neutral("Bool"));
    assert_eq!(r, CoreTerm::Error);
    assert_eq!(diags, vec![error(Message::TypeMismatch, sp(2, 3))]);
}

fn alias(span: Span, n: &str, ty: Option<SurfaceTerm>, term: SurfaceTerm) -> Item {
    Item::Alias(Alias { span, doc: format!("about {}", n), name: n.to_string(), ty, term })
}

#[test]
fn annotated_alias() {
    let (items, diags) = elaborate(vec![alias(sp(0, 20), "one", Some(name("Int", 10)), lit("1", 16))]);
    let expected = CoreItem::Alias(CoreAlias {
        span: sp(0, 20),
        doc: "about one".to_string(),
        name: "one".to_string(),
        term: CoreTerm::Ann(Box::new(CoreTerm::Constant(Constant::Int(big("1")))), Box::new(global("Int"))),
    });
    assert_eq!(items, vec![expected]);
    assert!(diags.is_empty());
}

#[test]
fn unannotated_literal_alias() {
    let (items, diags) = elaborate(vec![alias(sp(0, 20), "one", None, lit("1", 12))]);
    let expected = CoreItem::Alias(CoreAlias {
        span: sp(0, 20),
        doc: "about one".to_string(),
        name: "one".to_string(),
        term: CoreTerm::Error,
    });
    assert_eq!(items, vec![expected]);
    assert_eq!(diags, vec![error(Message::AmbiguousNumericLiteral, sp(12, 13))]);
}

#[test]
fn redefinition_keeps_first() {
    let (items, diags) = elaborate(vec![
        alias(sp(0, 20), "x", Some(name("Int", 10)), lit("1", 16)),
        alias(sp(30, 50), "x", Some(name("Int", 40)), lit("2", 46)),
    ]);
    let expected = CoreItem::Alias(CoreAlias {
        span: sp(0, 20),
        doc: "about x".to_string(),
        name: "x".to_string(),
        term: CoreTerm::Ann(Box::new(CoreTerm::Constant(Constant::Int(big("1")))), Box::new(global("Int"))),
    });
    assert_eq!(items, vec![expected]);
    assert_eq!(
        diags,
        vec![Diagnostic {
            severity: Severity::Error,
            message: Message::ItemRedefinition,
            primary: sp(30, 50),
            secondary: Some(sp(0, 20)),
        }]
    );
}

#[test]
fn later_items_see_earlier_ones() {
    let (items, diags) = elaborate(vec![
        alias(sp(0, 20), "Number", None, name("Int", 10)),
        alias(sp(30, 50), "seven", Some(name("Number", 40)), lit("7", 46)),
    ]);
    assert_eq!(items.len(), 2);
    let expected = CoreItem::Alias(CoreAlias {
        span: sp(30, 50),
        doc: "about seven".to_string(),
        name: "seven".to_string(),
        term: CoreTerm::Ann(
            Box::new(CoreTerm::Constant(Constant::Int(big("7")))),
            Box::new(CoreTerm::Item("Number".to_string())),
        ),
    });
    assert_eq!(items[1], expected);
    assert!(diags.is_empty());
}

fn field(n: &str, at: u32, term: SurfaceTerm) -> TypeField {
    TypeField { doc: format!("field {}", at), name_span: sp(at, at + 1), name: n.to_string(), term }
}

#[test]
fn struct_field_redeclaration() {
    let s = Item::Struct(StructType {
        span: sp(0, 40),
        doc: "a struct".to_string(),
        name: "Pair".to_string(),
        fields: vec![field("x", 10, name("F32", 14)), field("x", 20, name("F32", 24))],
    });
    let (items, diags) = elaborate(vec![s]);
    match &items[..] {
        [CoreItem::Struct(st)] => {
            assert_eq!(st.name, "Pair");
            assert_eq!(st.doc, "a struct");
            assert_eq!(
                st.fields,
                vec![CoreTypeField {
                    span: sp(10, 15),
                    doc: "field 10".to_string(),
                    name: "x".to_string(),
                    term: global("F32"),
                }]
            );
        }
        _ => panic!("expected one struct item"),
    }
    assert_eq!(
        diags,
        vec![Diagnostic {
            severity: Severity::Error,
            message: Message::FieldRedeclaration,
            primary: sp(20, 25),
            secondary: Some(sp(10, 15)),
        }]
    );
}

#[test]
fn struct_fields_must_be_formats() {
    let s = Item::Struct(StructType {
        span: sp(0, 40),
        doc: "a struct".to_string(),
        name: "P".to_string(),
        fields: vec![field("x", 10, name("Int", 14))],
    });
    let t = alias(sp(50, 60), "Q", None, name("P", 55));
    let (items, diags) = elaborate(vec![s, t]);
    assert_eq!(items.len(), 2);
    assert_eq!(diags, vec![error(Message::TypeMismatch, sp(14, 15))]);
}

#[test]
fn struct_redefinition() {
    let s1 = Item::Struct(StructType { span: sp(0, 10), doc: String::new(), name: "S".to_string(), fields: vec![] });
    let s2 = Item::Struct(StructType { span: sp(20, 30), doc: String::new(), name: "S".to_string(), fields: vec![] });
    let (items, diags) = elaborate(vec![s1, s2]);
    assert_eq!(items.len(), 1);
    assert_eq!(
        diags,
        vec![Diagnostic {
            severity: Severity::Error,
            message: Message::ItemRedefinition,
            primary: sp(20, 30),
            secondary: Some(sp(0, 10)),
        }]
    );
}

#[test]
fn diagnostics_have_message_text() {
    assert_eq!(Message::NoDefaultPattern.text(), "no default pattern");
    assert_eq!(Message::UnreachablePattern.text(), "unreachable pattern");
    assert_eq!(Message::KindHasNoType.text(), "`Kind` has no type");
}

#[test]
fn literals_of_any_size() {
    let text = "-123456789012345678901234567890123456789012345";
    let (r, diags) = check(&lit(text, 0), &neutral("Int"));
    assert!(diags.is_empty());
    match &r {
        CoreTerm::Constant(Constant::Int(k)) => {
            assert!(k.negative);
            assert_eq!(ddl::literal::decimal_string(k), text);
        }
        _ => panic!("expected an integer constant"),
    }
    let large = "340282366920938463463374607431768211456";
    let t = int_match(vec![
        (number_pattern(large, 10), name("a", 12)),
        (number_pattern("7", 14), name("b", 16)),
        (number_pattern(large, 18), name("c", 20)),
        (name_pattern("_", 22), name("d", 24)),
    ]);
    let (r, diags) = check(&t, &neutral("Int"));
    let expected = CoreTerm::IntElim(
        Box::new(global("x")),
        cons("7", global("b"), cons(large, global("a"), IntBranches::Nil)),
        Box::new(global("d")),
    );
    assert_eq!(r, expected);
    assert_eq!(diags, vec![warning(Message::UnreachablePattern, sp(18, 19))]);
}

#[test]
fn integer_keys_compare_by_value() {
    let a = big("0");
    let b = big("-0");
    assert_eq!(a.compare(&b), 0);
    assert_eq!(big("-10").compare(&big("9")), -1);
    assert_eq!(big("100").compare(&big("99")), 1);
    assert_eq!(big("-100").compare(&big("-99")), -1);
    assert_eq!(big("1_000").compare(&big("1000")), 0);
}
