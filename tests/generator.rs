use rutie_attr::argument::{ArgumentDefaultValue, ArgumentKind};
use rutie_attr::binding::{argument_source, first_failure, ArgumentSource};
use rutie_attr::diagnostic::{combined_errors, Diagnostic, DiagnosticKind};
use rutie_attr::method::{is_identifier_text, is_valid_external_name, MethodKind};
use rutie_attr::rbclass::{ClassField, Rbclass};
use rutie_attr::rbdef::{FnInput, Rbdef};
use rutie_attr::rbmethods::{ImplMethod, MethodAttr, Rbmethods};
use rutie_attr::registry::ClassRegistry;
use rutie_attr::token::{concat_text, same_text, AttrTree, Token, TokenKind};
use rutie_attr::util::uppercase_first_letter;

fn ident(s: &str, span: usize) -> Token {
    Token { kind: TokenKind::Ident(s.to_string()), span }
}

fn punct(c: char, span: usize) -> Token {
    Token { kind: TokenKind::Punct(c), span }
}

fn lit(s: &str, span: usize) -> Token {
    Token { kind: TokenKind::Literal(s.to_string()), span }
}

fn typed(name: &str, ty: &str) -> FnInput {
    FnInput::Typed { name: name.to_string(), ty: ty.to_string() }
}

fn singles(ts: Vec<Token>) -> Vec<AttrTree> {
    ts.into_iter().map(AttrTree::Single).collect()
}

fn default_of(ts: &[Token]) -> ArgumentDefaultValue {
    ArgumentDefaultValue::from_tokens(ts)
}

fn method_of(fn_name: &str, inputs: Vec<FnInput>, attr: Vec<AttrTree>) -> rutie_attr::method::Method {
    Rbdef::new(fn_name, &inputs, "RString", &attr).method_info()
}

#[test]
fn default_literal_nil_and_booleans() {
    assert!(matches!(default_of(&[ident("nil", 0)]), ArgumentDefaultValue::Nil));
    assert!(matches!(default_of(&[ident("true", 0)]), ArgumentDefaultValue::Boolean(true)));
    assert!(matches!(default_of(&[ident("false", 0)]), ArgumentDefaultValue::Boolean(false)));
}

#[test]
fn default_literal_quoted_text_loses_its_quotes() {
    match default_of(&[lit("\"foo\"", 0)]) {
        ArgumentDefaultValue::StringLiteral(s) => assert_eq!(s, "foo"),
        _ => panic!("expected a string literal"),
    }
    match default_of(&[lit("\"\"", 0)]) {
        ArgumentDefaultValue::StringLiteral(s) => assert_eq!(s, ""),
        _ => panic!("expected a string literal"),
    }
}

#[test]
fn default_literal_numbers() {
    assert!(matches!(default_of(&[lit("42", 0)]), ArgumentDefaultValue::NumberLiteral(42)));
    assert!(matches!(
        default_of(&[punct('-', 0), lit("112", 1)]),
        ArgumentDefaultValue::NumberLiteral(-112)
    ));
    assert!(matches!(default_of(&[punct('+', 0), lit("7", 1)]), ArgumentDefaultValue::NumberLiteral(7)));
}

#[test]
fn default_literal_other_text_stays_text() {
    match default_of(&[ident("abc", 0)]) {
        ArgumentDefaultValue::StringLiteral(s) => assert_eq!(s, "abc"),
        _ => panic!("expected a string literal"),
    }
    match default_of(&[]) {
        ArgumentDefaultValue::StringLiteral(s) => assert_eq!(s, ""),
        _ => panic!("expected a string literal"),
    }
    // too large for an i128
    match default_of(&[lit("999999999999999999999999999999999999999999", 0)]) {
        ArgumentDefaultValue::StringLiteral(s) => assert_eq!(s, "999999999999999999999999999999999999999999"),
        _ => panic!("expected a string literal"),
    }
}

#[test]
fn default_value_expressions() {
    assert_eq!(ArgumentDefaultValue::Nil.to_default_value("RString"), "None");
    assert_eq!(ArgumentDefaultValue::Boolean(true).to_default_value("Boolean"), "Boolean::new(true)");
    assert_eq!(
        ArgumentDefaultValue::StringLiteral("a\"b".to_string()).to_default_value("RString"),
        "RString::from(\"a\\\"b\")"
    );
    assert_eq!(ArgumentDefaultValue::NumberLiteral(-112).to_default_value("Fixnum"), "Fixnum::new(-112i128)");
}

#[test]
fn struct_field_types_and_initialisers() {
    assert_eq!(ArgumentKind::Arg.type_for_struct_field("RString"), "rutie_attr_backend::Arg<RString>");
    assert_eq!(ArgumentKind::KwArg.type_for_struct_field("Fixnum"), "rutie_attr_backend::KwArg<Fixnum>");
    assert_eq!(
        ArgumentKind::Arg.expr_call_for_initialize_struct_field(0, "a"),
        "rutie_attr_backend::Arg::from_arg(_arguments.get(0usize))"
    );
    assert_eq!(
        ArgumentKind::DArg.expr_call_for_initialize_struct_field(1, "b"),
        "rutie_attr_backend::DArg::from_arg_with_default(_arguments.get(1usize), default_value_map.get(\"b\"))"
    );
    assert_eq!(
        ArgumentKind::KwArg.expr_call_for_initialize_struct_field(2, "c"),
        "rutie_attr_backend::KwArg::from_arg_with_key_and_default(_arguments.get(2usize), \"c\", default_value_map.get(\"c\"))"
    );
}

#[test]
fn uppercase_first_letter_examples() {
    assert_eq!(uppercase_first_letter("test"), "Test");
    assert_eq!(uppercase_first_letter(""), "");
    assert_eq!(uppercase_first_letter("_hoge"), "_hoge");
    assert_eq!(uppercase_first_letter("ßa"), "SSa");
}

#[test]
fn token_text_helpers() {
    assert_eq!(concat_text(&[punct('-', 0), lit("112", 1), Token { kind: TokenKind::Group, span: 2 }]), "-112");
    assert!(same_text("abc", "abc"));
    assert!(!same_text("abc", "abd"));
    assert!(!same_text("abc", "ab"));
}

#[test]
fn signature_entries_split_at_commas() {
    let sig = vec![
        ident("a", 1),
        punct('=', 2),
        lit("\"x\"", 3),
        punct(',', 4),
        ident("b", 5),
        punct(':', 6),
        lit("1", 7),
        punct(',', 8),
        ident("c", 9),
        punct(',', 10),
    ];
    let es = Rbdef::def_signature_map(&sig);
    assert_eq!(es.len(), 3);
    assert_eq!(es[0].name, "a");
    assert_eq!(es[0].name_span, 1);
    assert_eq!(es[0].tokens.len(), 2);
    assert_eq!(es[1].name, "b");
    assert_eq!(es[2].name, "c");
    assert!(es[2].tokens.is_empty());
}

#[test]
fn signature_later_entry_replaces_earlier() {
    let sig = vec![ident("a", 1), punct('=', 2), lit("1", 3), punct(',', 4), ident("a", 5), punct(':', 6)];
    let es = Rbdef::def_signature_map(&sig);
    assert_eq!(es.len(), 1);
    assert_eq!(es[0].name_span, 5);
    let (kind, default) = Rbdef::arg_type_and_default_value(&es, "a");
    assert_eq!(kind, ArgumentKind::KwArg);
    assert!(default.is_none());
}

#[test]
fn arguments_follow_native_order_and_signature() {
    let attr = vec![
        AttrTree::Single(ident("m", 0)),
        AttrTree::Group(vec![
            ident("c", 1),
            punct(':', 2),
            ident("nil", 3),
            punct(',', 4),
            ident("b", 5),
            punct('=', 6),
            lit("\"x\"", 7),
        ]),
    ];
    let inputs = vec![FnInput::Receiver, typed("a", "RString"), typed("b", "RString"), typed("c", "Hash")];
    let m = method_of("m", inputs, attr);
    assert_eq!(m.kind, MethodKind::Instance);
    assert_eq!(m.arguments.len(), 3);
    assert_eq!(m.arguments[0].name, "a");
    assert_eq!(m.arguments[0].kind, ArgumentKind::Arg);
    assert!(m.arguments[0].default_value.is_none());
    assert_eq!(m.arguments[1].kind, ArgumentKind::DArg);
    assert!(matches!(&m.arguments[1].default_value, Some(ArgumentDefaultValue::StringLiteral(s)) if s == "x"));
    assert_eq!(m.arguments[2].kind, ArgumentKind::KwArg);
    assert_eq!(m.arguments[2].ty, "Hash");
    assert!(matches!(m.arguments[2].default_value, Some(ArgumentDefaultValue::Nil)));
    assert!(m.validate().is_ok());
}

#[test]
fn positional_index_of_keyword_arguments() {
    let attr = vec![
        AttrTree::Single(ident("m", 0)),
        AttrTree::Group(vec![
            ident("b", 1),
            punct('=', 2),
            lit("1", 3),
            punct(',', 4),
            ident("c", 5),
            punct(':', 6),
            punct(',', 7),
            ident("d", 8),
            punct(':', 9),
        ]),
    ];
    let inputs = vec![typed("a", "Fixnum"), typed("b", "Fixnum"), typed("c", "Fixnum"), typed("d", "Fixnum")];
    let m = method_of("m", inputs, attr);
    assert_eq!(m.arguments_order(), vec![0, 1, 2, 2]);
}

#[test]
fn external_name_token_forms() {
    let valid = [vec![ident("test", 0)], vec![ident("test", 0), punct('!', 1)], vec![ident("test", 0), punct('?', 1)]];
    for name in valid.iter() {
        let m = method_of("test", vec![], singles(name.clone()));
        assert!(m.validate_def_name().is_ok());
    }
    let m = method_of("test", vec![], singles(vec![lit("1test", 4)]));
    let e = m.validate_def_name().unwrap_err();
    assert_eq!(e, Diagnostic { kind: DiagnosticKind::ExternalName, span: Some(4) });

    let m = method_of("test", vec![], singles(vec![ident("test", 0), punct('!', 1), punct('?', 2)]));
    assert_eq!(
        m.validate_def_name().unwrap_err(),
        Diagnostic { kind: DiagnosticKind::ExternalName, span: Some(2) }
    );

    let m = method_of("test", vec![], singles(vec![ident("test", 0), punct('#', 1), punct('#', 2)]));
    assert_eq!(
        m.validate_def_name().unwrap_err(),
        Diagnostic { kind: DiagnosticKind::ExternalNameSuffix, span: Some(1) }
    );

    let m = method_of("test", vec![], singles(vec![ident("test", 0), ident("x", 1)]));
    assert_eq!(
        m.validate_def_name().unwrap_err(),
        Diagnostic { kind: DiagnosticKind::ExternalName, span: Some(1) }
    );
}

#[test]
fn external_name_texts() {
    assert!(is_valid_external_name("test"));
    assert!(is_valid_external_name("test!"));
    assert!(is_valid_external_name("test?"));
    assert!(is_valid_external_name("_hoge!"));
    assert!(!is_valid_external_name("1test"));
    assert!(!is_valid_external_name("test!?"));
    assert!(!is_valid_external_name("test##"));
    assert!(!is_valid_external_name(""));
    assert!(!is_valid_external_name("!"));
    assert!(is_identifier_text("a1_b"));
    assert!(!is_identifier_text("a-b"));
}

#[test]
fn external_name_key_form() {
    let m = method_of("test", vec![], singles(vec![ident("name", 0), punct('=', 1), lit("\"test?\"", 2)]));
    assert!(m.validate_def_name().is_ok());
    assert_eq!(m.def_name(), "test?");

    let m = method_of("test", vec![], singles(vec![ident("name", 0), punct('=', 1), lit("\"\"", 2)]));
    assert_eq!(
        m.validate_def_name().unwrap_err(),
        Diagnostic { kind: DiagnosticKind::ExternalName, span: Some(2) }
    );
}

#[test]
fn external_name_defaults_to_native_name() {
    let m = method_of("hoge", vec![typed("b", "RString")], vec![]);
    assert!(m.validate().is_ok());
    assert_eq!(m.def_name(), "hoge");
    let m = method_of("hoge", vec![], singles(vec![ident("_hoge", 0), punct('!', 1)]));
    assert_eq!(m.def_name(), "_hoge!");
}

#[test]
fn unknown_signature_keys_are_reported_together() {
    let attr = vec![
        AttrTree::Single(ident("test", 0)),
        AttrTree::Group(vec![
            ident("x", 1),
            punct('=', 2),
            lit("1", 3),
            punct(',', 4),
            ident("a", 5),
            punct(',', 6),
            ident("y", 7),
            punct(':', 8),
        ]),
    ];
    let m = method_of("test", vec![typed("a", "Fixnum")], attr);
    let d = m.validate_def_signature().unwrap_err();
    assert_eq!(
        d.items,
        vec![
            Diagnostic { kind: DiagnosticKind::UnknownSignatureKey, span: Some(1) },
            Diagnostic { kind: DiagnosticKind::UnknownSignatureKey, span: Some(7) },
        ]
    );
    assert_eq!(d.items[0].message(), "not found in arguments.");
}

#[test]
fn method_validation_combines_name_and_keys() {
    let attr = vec![
        AttrTree::Single(ident("test", 0)),
        AttrTree::Single(punct('#', 1)),
        AttrTree::Group(vec![ident("zz", 2)]),
    ];
    let m = method_of("test", vec![], attr);
    let d = m.validate().unwrap_err();
    assert_eq!(
        d.items,
        vec![
            Diagnostic { kind: DiagnosticKind::ExternalNameSuffix, span: Some(1) },
            Diagnostic { kind: DiagnosticKind::UnknownSignatureKey, span: Some(2) },
        ]
    );
    assert_eq!(d.items[0].message(), "The end of the def_name is ! or ? punctuations can be specified.");
    let e = Diagnostic { kind: DiagnosticKind::ExternalName, span: None };
    assert_eq!(
        e.message(),
        "The def_name must be an alphabetic or underscore ident and end with ! or ? symbol at the end."
    );
}

#[test]
fn combined_errors_of_nothing_is_none() {
    assert!(combined_errors(vec![]).is_none());
    let one = Diagnostic { kind: DiagnosticKind::ExternalName, span: Some(3) };
    assert_eq!(combined_errors(vec![one]).unwrap().items, vec![one]);
}

#[test]
fn fail_fast_reports_first_declared_failure() {
    let results: Vec<Result<u8, &str>> = vec![Err("a1"), Err("a2")];
    assert_eq!(first_failure(&results), Some(0));
    let results: Vec<Result<u8, &str>> = vec![Ok(1), Err("a2"), Err("a3")];
    assert_eq!(first_failure(&results), Some(1));
    let results: Vec<Result<u8, &str>> = vec![Ok(1), Ok(2)];
    assert_eq!(first_failure(&results), None);
}

#[test]
fn argument_sources() {
    assert_eq!(argument_source(ArgumentKind::Arg, true, false, false), ArgumentSource::Positional);
    assert_eq!(argument_source(ArgumentKind::Arg, false, false, true), ArgumentSource::Missing);
    assert_eq!(argument_source(ArgumentKind::DArg, false, false, true), ArgumentSource::Default);
    assert_eq!(argument_source(ArgumentKind::DArg, false, false, false), ArgumentSource::Missing);
    assert_eq!(argument_source(ArgumentKind::DArg, true, false, true), ArgumentSource::Positional);
    assert_eq!(argument_source(ArgumentKind::KwArg, true, true, true), ArgumentSource::KeywordHash);
    assert_eq!(argument_source(ArgumentKind::KwArg, true, false, true), ArgumentSource::Default);
    assert_eq!(argument_source(ArgumentKind::KwArg, true, false, false), ArgumentSource::Missing);
    assert_eq!(argument_source(ArgumentKind::KwArg, false, false, false), ArgumentSource::Missing);
    assert_eq!(argument_source(ArgumentKind::KwArg, false, false, true), ArgumentSource::Default);
}

#[test]
fn registry_keeps_first_declaration() {
    let mut r = ClassRegistry::new();
    assert!(!r.contains("Foo"));
    r.register("Foo", vec!["a".to_string()]);
    r.register("Foo", vec!["b".to_string()]);
    r.register("Bar", vec![]);
    assert!(r.contains("Foo"));
    assert_eq!(r.fields("Foo"), &vec!["a".to_string()]);
    assert!(r.fields("Bar").is_empty());
}

#[test]
fn class_declaration() {
    let c = Rbclass::new(
        "Foo".to_string(),
        vec![
            ClassField { name: "foo1".to_string(), ty: "RString".to_string() },
            ClassField { name: "foo2".to_string(), ty: "Fixnum".to_string() },
        ],
    );
    let mut r = ClassRegistry::new();
    let code = c.token_stream(&mut r);
    assert!(code.starts_with("rutie::class!(RutieFoo); impl std::convert::TryFrom<RutieFoo> for Foo { type Error = rutie::AnyException; fn try_from(f: RutieFoo) -> Result<Self, Self::Error> { let foo1 = unsafe { f.send(\"foo1\", &[]) }; "));
    assert!(code.contains("Some(\"foo2 field is nil.\")"));
    assert!(code.contains("let foo2 = foo2.try_convert_to::<Fixnum>(); if let Err(e) = foo2 { return Err(e); } let foo2 = foo2.unwrap(); "));
    assert!(code.ends_with("Ok(Foo { foo1: foo1, foo2: foo2, }) } }"));
    assert_eq!(r.fields("Foo"), &vec!["foo1".to_string(), "foo2".to_string()]);
    assert_eq!(c.construct_class(), "Foo { foo1: foo1, foo2: foo2, }");
    assert_eq!(c.rutie_class(), "RutieFoo");
}

fn foo_registry() -> ClassRegistry {
    let mut r = ClassRegistry::new();
    r.register("Foo", vec!["foo1".to_string(), "foo2".to_string()]);
    r
}

#[test]
fn end_to_end_static_method_with_string_default() {
    let attr = vec![MethodAttr {
        path: "rbdef".to_string(),
        tokens: vec![
            AttrTree::Single(ident("test", 0)),
            AttrTree::Single(punct('?', 1)),
            AttrTree::Group(vec![ident("a", 2), punct('=', 3), lit("\"a\"", 4)]),
        ],
    }];
    let item = ImplMethod {
        fn_name: "test".to_string(),
        inputs: vec![typed("a", "RString")],
        return_type: "RString".to_string(),
        attrs: attr,
    };
    let rb = Rbmethods::new("Foo".to_string(), vec![item]);
    let g = rb.token_stream(&foo_registry()).unwrap();
    assert_eq!(g.boundary_fns.len(), 1);
    assert_eq!(g.boundary_fns[0].name, "rutie_Foo_test");
    assert_eq!(g.boundary_fns[0].receiver, "RutieFoo");
    assert_eq!(
        g.boundary_fns[0].body,
        "let _arguments = rutie::util::parse_arguments(argc, argv); let mut default_value_map = std::collections::HashMap::new(); default_value_map.insert(\"a\", RString::from(\"a\").to_any_object()); RutieFooTestMethod::new(&_arguments, _rtself, &default_value_map).invoke()"
    );
    assert!(g.items.starts_with("struct RutieFooTestMethod { rtself: RutieFoo, a: rutie_attr_backend::DArg<RString>, }"));
    assert!(g.items.contains(
        "a: rutie_attr_backend::DArg::from_arg_with_default(_arguments.get(0usize), default_value_map.get(\"a\")), "
    ));
    assert!(g.items.contains("let result = Foo::test(self.a(), ); result.to_any_object()"));
    assert_eq!(g.init_name, "Init_Foo");
    assert_eq!(
        g.init_body,
        "rutie::Class::new(\"Foo\", None).define(|klass| { klass.attr_accessor(\"foo1\"); klass.attr_accessor(\"foo2\"); klass.def_self(\"test?\", rutie_Foo_test); });"
    );
    // no positional argument: the default is used; one given: it is used
    assert_eq!(argument_source(ArgumentKind::DArg, false, false, true), ArgumentSource::Default);
    assert_eq!(argument_source(ArgumentKind::DArg, true, false, true), ArgumentSource::Positional);
}

#[test]
fn end_to_end_instance_method_with_unquoted_number_default() {
    let attr = vec![MethodAttr {
        path: "rbdef".to_string(),
        tokens: vec![
            AttrTree::Single(ident("_hoge", 0)),
            AttrTree::Single(punct('!', 1)),
            AttrTree::Group(vec![ident("b", 2), punct('=', 3), punct('-', 4), lit("112", 5)]),
        ],
    }];
    let item = ImplMethod {
        fn_name: "hoge".to_string(),
        inputs: vec![FnInput::Receiver, typed("b", "RString")],
        return_type: "RString".to_string(),
        attrs: attr,
    };
    let other = ImplMethod {
        fn_name: "helper".to_string(),
        inputs: vec![],
        return_type: String::new(),
        attrs: vec![MethodAttr { path: "inline".to_string(), tokens: vec![] }],
    };
    let rb = Rbmethods::new("Foo".to_string(), vec![other, item]);
    let g = rb.token_stream(&foo_registry()).unwrap();
    assert_eq!(g.boundary_fns.len(), 1);
    assert!(g.boundary_fns[0].body.contains("default_value_map.insert(\"b\", RString::new(-112i128).to_any_object());"));
    assert!(g.items.contains("let _self = Foo::try_from(RutieFoo { value: self.rtself.value() });"));
    assert!(g.items.contains("let result = _self.unwrap().hoge(self.b(), );"));
    assert!(g.init_body.contains("klass.def(\"_hoge!\", rutie_Foo_hoge);"));
}

#[test]
fn quoted_number_default_stays_a_string() {
    let m = method_of(
        "hoge",
        vec![FnInput::Receiver, typed("b", "RString")],
        vec![
            AttrTree::Single(ident("_hoge", 0)),
            AttrTree::Single(punct('!', 1)),
            AttrTree::Group(vec![ident("b", 2), punct('=', 3), lit("\"-112\"", 4)]),
        ],
    );
    assert!(matches!(&m.arguments[0].default_value, Some(ArgumentDefaultValue::StringLiteral(s)) if s == "-112"));
    assert!(m.fn_call("RutieFoo").contains("RString::from(\"-112\")"));
}

#[test]
fn invalid_methods_generate_nothing() {
    let bad = ImplMethod {
        fn_name: "t".to_string(),
        inputs: vec![],
        return_type: String::new(),
        attrs: vec![MethodAttr {
            path: "rbdef".to_string(),
            tokens: vec![AttrTree::Single(lit("1test", 7))],
        }],
    };
    let rb = Rbmethods::new("Foo".to_string(), vec![bad]);
    let d = rb.token_stream(&foo_registry()).unwrap_err();
    assert_eq!(d.items, vec![Diagnostic { kind: DiagnosticKind::ExternalName, span: Some(7) }]);
}

#[test]
fn accessors_and_checks_for_every_argument() {
    let m = method_of(
        "m",
        vec![typed("a", "RString"), typed("b", "Fixnum")],
        vec![AttrTree::Single(ident("m", 0))],
    );
    let s = m.method_struct_impl("Foo", "RutieFoo");
    assert!(s.contains("if let Err(e) = &self.a.result { return Some(e); } if let Err(e) = &self.b.result { return Some(e); } return None;"));
    assert!(s.contains("fn a(&self) -> RString {"));
    assert!(s.contains("fn b(&self) -> Fixnum {"));
    assert_eq!(m.method_struct_name("RutieFoo"), "RutieFooMMethod");
    assert_eq!(
        m.method_struct("RutieFoo"),
        "struct RutieFooMMethod { rtself: RutieFoo, a: rutie_attr_backend::Arg<RString>, b: rutie_attr_backend::Arg<Fixnum>, }"
    );
}

#[test]
fn default_literal_integer_limits() {
    assert!(matches!(
        default_of(&[punct('-', 0), lit("170141183460469231731687303715884105728", 1)]),
        ArgumentDefaultValue::NumberLiteral(i128::MIN)
    ));
    assert!(matches!(
        default_of(&[lit("170141183460469231731687303715884105727", 0)]),
        ArgumentDefaultValue::NumberLiteral(i128::MAX)
    ));
    match default_of(&[lit("170141183460469231731687303715884105728", 0)]) {
        ArgumentDefaultValue::StringLiteral(s) => assert_eq!(s, "170141183460469231731687303715884105728"),
        _ => panic!("expected a string literal"),
    }
    for sign in ['-', '+'] {
        match default_of(&[punct(sign, 0)]) {
            ArgumentDefaultValue::StringLiteral(s) => assert_eq!(s, sign.to_string()),
            _ => panic!("expected a string literal"),
        }
    }
    match default_of(&[lit("1_000", 0)]) {
        ArgumentDefaultValue::StringLiteral(s) => assert_eq!(s, "1_000"),
        _ => panic!("expected a string literal"),
    }
}

#[test]
fn string_literals_escape_their_text() {
    assert_eq!(
        ArgumentDefaultValue::StringLiteral("\u{e9}\t\\".to_string()).to_default_value("RString"),
        "RString::from(\"\\u{e9}\\t\\\\\")"
    );
    assert_eq!(ArgumentDefaultValue::NumberLiteral(0).to_default_value("Fixnum"), "Fixnum::new(0i128)");
}

#[test]
fn external_names_beyond_ascii() {
    let m = method_of("cafe", vec![], singles(vec![ident("caf\u{e9}", 0), punct('!', 1)]));
    assert!(m.validate_def_name().is_ok());
    let m = method_of("cafe", vec![], singles(vec![ident("name", 0), punct('=', 1), lit("\"caf\u{e9}?\"", 2)]));
    assert!(m.validate_def_name().is_ok());
    assert!(is_valid_external_name("\u{e9}t\u{e9}2"));
    assert!(!is_valid_external_name("2\u{e9}t\u{e9}"));
}
