use ddl::integer::BigInteger;
use ddl::literal::parse_int_literal;
use ddl::core_syntax::{
    Alias as CoreAlias, Constant, Global, Globals, IntBranches, Item as CoreItem,
    Module as CoreModule, StructType as CoreStructType, Term as CoreTerm,
    TypeField as CoreTypeField, Universe, Value,
};
use ddl::core_to_surface::{from_constant, from_item, from_module, from_term};
use ddl::elaborate::{check_term, Context};
use ddl::semantics::{evaluate, values_equal};
use ddl::source::{ByteRange, FileId, Span};
use ddl::surface::{Item, Pattern, Term as SurfaceTerm};

fn big(text: &str) -> BigInteger {
    parse_int_literal(&text.to_string()).unwrap()
}

fn global(s: &str) -> CoreTerm {
    CoreTerm::Global(s.to_string())
}

fn empty_name(s: &str) -> SurfaceTerm {
    SurfaceTerm::Name(Span::Empty, s.to_string())
}

#[test]
fn integer_eliminator_becomes_match_with_wildcard_last() {
    let t = CoreTerm::IntElim(
        Box::new(global("x")),
        IntBranches::Cons(big("-5"),
            Box::new(global("a")),
            Box::new(IntBranches::Cons(big("3"), Box::new(global("b")), Box::new(IntBranches::Nil))),
        ),
        Box::new(global("d")),
    );
    let expected = SurfaceTerm::Match(
        Span::Empty,
        Box::new(empty_name("x")),
        vec![
            (Pattern::NumberLiteral(Span::Empty, "-5".to_string()), empty_name("a")),
            (Pattern::NumberLiteral(Span::Empty, "3".to_string()), empty_name("b")),
            (Pattern::Name(Span::Empty, "_".to_string()), empty_name("d")),
        ],
    );
    assert_eq!(from_term(&t), expected);
}

#[test]
fn boolean_eliminator_becomes_if() {
    let t = CoreTerm::BoolElim(Box::new(global("true")), Box::new(global("a")), Box::new(CoreTerm::Error));
    let expected = SurfaceTerm::If(
        Span::Empty,
        Box::new(empty_name("true")),
        Box::new(empty_name("a")),
        Box::new(SurfaceTerm::Error(Span::Empty)),
    );
    assert_eq!(from_term(&t), expected);
}

#[test]
fn application_and_function_types() {
    let t = CoreTerm::FunctionElim(
        Box::new(CoreTerm::FunctionElim(Box::new(global("g")), Box::new(global("a")))),
        Box::new(CoreTerm::Item("b".to_string())),
    );
    let expected = SurfaceTerm::FunctionElim(
        Box::new(SurfaceTerm::FunctionElim(Box::new(empty_name("g")), vec![empty_name("a")])),
        vec![empty_name("b")],
    );
    assert_eq!(from_term(&t), expected);
    let f = CoreTerm::FunctionType(
        Box::new(CoreTerm::Universe(Universe::Host)),
        Box::new(CoreTerm::Universe(Universe::Kind)),
    );
    assert_eq!(
        from_term(&f),
        SurfaceTerm::FunctionType(
            Box::new(SurfaceTerm::Host(Span::Empty)),
            Box::new(SurfaceTerm::Kind(Span::Empty))
        )
    );
}

#[test]
fn constants_become_literals() {
    let span = Span::Range(ByteRange::new(FileId::new(1).unwrap(), 2, 4));
    assert_eq!(
        from_constant(span, &Constant::Int(big("-120"))),
        SurfaceTerm::NumberLiteral(span, "-120".to_string())
    );
    assert_eq!(
        from_constant(span, &Constant::F64("0.25".to_string())),
        SurfaceTerm::NumberLiteral(span, "0.25".to_string())
    );
    assert_eq!(
        from_term(&CoreTerm::Constant(Constant::Int(big("0")))),
        SurfaceTerm::NumberLiteral(Span::Empty, "0".to_string())
    );
}

#[test]
fn annotated_alias_regains_its_type() {
    let span = Span::Range(ByteRange::new(FileId::new(1).unwrap(), 0, 9));
    let item = CoreItem::Alias(CoreAlias {
        span,
        doc: "the number one".to_string(),
        name: "one".to_string(),
        term: CoreTerm::Ann(Box::new(CoreTerm::Constant(Constant::Int(big("1")))), Box::new(global("Int"))),
    });
    match from_item(&item) {
        Item::Alias(a) => {
            assert_eq!(a.span, span);
            assert_eq!(a.doc, "the number one");
            assert_eq!(a.name, "one");
            assert_eq!(a.ty, Some(empty_name("Int")));
            assert_eq!(a.term, SurfaceTerm::NumberLiteral(Span::Empty, "1".to_string()));
        }
        _ => panic!("expected an alias"),
    }
    let bare = CoreItem::Alias(CoreAlias { span, doc: String::new(), name: "two".to_string(), term: global("a") });
    match from_item(&bare) {
        Item::Alias(a) => {
            assert_eq!(a.ty, None);
            assert_eq!(a.term, empty_name("a"));
        }
        _ => panic!("expected an alias"),
    }
}

#[test]
fn module_items_are_quoted_in_order() {
    let span = Span::Range(ByteRange::new(FileId::new(2).unwrap(), 0, 9));
    let module = CoreModule {
        file_id: FileId::new(2).unwrap(),
        doc: "about".to_string(),
        items: vec![
            CoreItem::Struct(CoreStructType {
                span,
                doc: "a struct".to_string(),
                name: "S".to_string(),
                fields: vec![CoreTypeField {
                    span,
                    doc: "a field".to_string(),
                    name: "x".to_string(),
                    term: global("F32"),
                }],
            }),
            CoreItem::Alias(CoreAlias { span, doc: String::new(), name: "y".to_string(), term: CoreTerm::Error }),
        ],
    };
    let s = from_module(&module);
    assert_eq!(s.file_id, FileId::new(2).unwrap());
    assert_eq!(s.doc, "about");
    assert_eq!(s.items.len(), 2);
    match &s.items[0] {
        Item::Struct(st) => {
            assert_eq!(st.name, "S");
            assert_eq!(st.doc, "a struct");
            assert_eq!(st.fields.len(), 1);
            assert_eq!(st.fields[0].doc, "a field");
            assert_eq!(st.fields[0].name, "x");
            assert_eq!(st.fields[0].term, empty_name("F32"));
        }
        _ => panic!("expected a struct"),
    }
}

#[test]
fn quoting_then_checking_gives_an_equal_value() {
    let mut g = Globals::standard();
    g.entries.push(Global { name: "a".to_string(), ty: global("Int") });
    g.entries.push(Global {
        name: "f".to_string(),
        ty: CoreTerm::FunctionType(Box::new(global("Int")), Box::new(global("Int"))),
    });
    let context = Context::new(&g, FileId::new(1).unwrap());
    let items = Vec::new();
    let terms = [
        CoreTerm::FunctionElim(Box::new(global("f")), Box::new(global("a"))),
        CoreTerm::FunctionType(Box::new(global("Int")), Box::new(global("Bool"))),
        CoreTerm::Ann(Box::new(global("a")), Box::new(global("Int"))),
    ];
    let expected_types = [
        Value::Neutral(ddl::core_syntax::Head::Global("Int".to_string()), ddl::core_syntax::Spine::Empty),
        Value::Universe(Universe::Host),
        Value::Neutral(ddl::core_syntax::Head::Global("Int".to_string()), ddl::core_syntax::Spine::Empty),
    ];
    for (t, ty) in terms.iter().zip(expected_types.iter()) {
        let s = from_term(t);
        let mut diags = Vec::new();
        let again = check_term(&context, &s, ty, &mut diags);
        assert!(diags.is_empty());
        assert!(values_equal(&evaluate(&items, t), &evaluate(&items, &again)));
        assert_ne!(again, CoreTerm::Error);
    }
}
