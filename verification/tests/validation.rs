use webtau::command::{CommandDeclaration, ExtraParam, ReturnShape, StateParam};
use webtau::decl::{
    FnDecl, GenericArg, GenericArgKind, Param, PathSegment, Pattern, SegmentArgs, TypeExpr,
    TypeShape,
};
use webtau::diag::{Diagnostic, DiagnosticKind, Location};
use webtau::validate::{classify_return, collect_type_arguments, parse_return_type, validate};

fn bare(ident: &str) -> PathSegment {
    PathSegment { ident: ident.to_string(), args: SegmentArgs::Bare }
}

fn ty_arg(text: &str) -> GenericArg {
    GenericArg { kind: GenericArgKind::Type, text: text.to_string() }
}

fn arg(kind: GenericArgKind, text: &str) -> GenericArg {
    GenericArg { kind, text: text.to_string() }
}

fn angle(ident: &str, args: Vec<GenericArg>) -> PathSegment {
    PathSegment { ident: ident.to_string(), args: SegmentArgs::AngleBracketed(args) }
}

fn path(text: &str, segments: Vec<PathSegment>) -> TypeExpr {
    TypeExpr { text: text.to_string(), shape: TypeShape::Path { segments } }
}

fn plain_type(text: &str) -> TypeExpr {
    path(text, vec![bare(text)])
}

fn generic_type(text: &str, head: &str, args: &[&str]) -> TypeExpr {
    path(text, vec![angle(head, args.iter().map(|a| ty_arg(a)).collect())])
}

fn reference_type(mutable: bool, elem: &str) -> TypeExpr {
    let text = if mutable { format!("&mut {}", elem) } else { format!("&{}", elem) };
    TypeExpr { text, shape: TypeShape::Reference { mutable, elem: elem.to_string() } }
}

fn ident_param(name: &str, ty: TypeExpr) -> Param {
    Param::Typed { pat: Pattern::Ident {
            mutable: false,
            by_ref: false,
            subpattern: false,
            name: name.to_string(),
        }, ty }
}

fn mut_ident_param(name: &str, ty: TypeExpr) -> Param {
    Param::Typed { pat: Pattern::Ident {
            mutable: true,
            by_ref: false,
            subpattern: false,
            name: name.to_string(),
        }, ty }
}

fn pattern_param(ty: TypeExpr) -> Param {
    Param::Typed { pat: Pattern::Other, ty }
}

fn decl(name: &str, params: Vec<Param>, ret: Option<TypeExpr>) -> FnDecl {
    FnDecl {
        name: name.to_string(),
        is_async: false,
        params,
        ret,
        body: "{ body() }".to_string(),
    }
}

fn kind_of(res: Result<CommandDeclaration, Diagnostic>) -> DiagnosticKind {
    match res {
        Err(d) => d.kind,
        Ok(_) => panic!("the declaration was accepted"),
    }
}

#[test]
fn async_declaration_is_refused() {
    let mut d = decl("f", vec![ident_param("state", reference_type(false, "T"))], None);
    d.is_async = true;
    assert_eq!(
        validate(&d),
        Err(Diagnostic { kind: DiagnosticKind::UnsupportedAsync, location: Location::AsyncKeyword })
    );
}

#[test]
fn async_is_reported_before_every_other_rule() {
    let mut d = decl("f", vec![Param::Receiver, pattern_param(plain_type("i32"))], None);
    d.is_async = true;
    assert_eq!(kind_of(validate(&d)), DiagnosticKind::UnsupportedAsync);
    let mut empty = decl("f", vec![], None);
    empty.is_async = true;
    assert_eq!(kind_of(validate(&empty)), DiagnosticKind::UnsupportedAsync);
}

#[test]
fn receiver_is_refused() {
    let d = decl("f", vec![Param::Receiver], None);
    assert_eq!(
        validate(&d),
        Err(Diagnostic {
            kind: DiagnosticKind::SelfReceiverUnsupported,
            location: Location::Parameter(0),
        })
    );
}

#[test]
fn receiver_is_reported_before_later_rules() {
    let d = decl(
        "f",
        vec![
            pattern_param(plain_type("T")),
            ident_param("__webtau_x", plain_type("i32")),
            Param::Receiver,
            Param::Receiver,
        ],
        None,
    );
    assert_eq!(
        validate(&d),
        Err(Diagnostic {
            kind: DiagnosticKind::SelfReceiverUnsupported,
            location: Location::Parameter(2),
        })
    );
}

#[test]
fn missing_state_parameter_is_refused() {
    let d = decl("f", vec![], Some(plain_type("View")));
    assert_eq!(
        validate(&d),
        Err(Diagnostic {
            kind: DiagnosticKind::MissingStateParameter,
            location: Location::FunctionName,
        })
    );
}

#[test]
fn state_pattern_must_be_an_identifier() {
    let d = decl("f", vec![pattern_param(plain_type("T"))], None);
    assert_eq!(
        validate(&d),
        Err(Diagnostic {
            kind: DiagnosticKind::NonIdentifierStatePattern,
            location: Location::ParameterPattern(0),
        })
    );
}

#[test]
fn state_pattern_is_checked_before_state_type() {
    let d = decl("f", vec![pattern_param(reference_type(true, "T"))], None);
    assert_eq!(kind_of(validate(&d)), DiagnosticKind::NonIdentifierStatePattern);
}

#[test]
fn state_must_be_a_reference() {
    let d = decl("f", vec![ident_param("state", plain_type("MyState"))], Some(plain_type("View")));
    assert_eq!(
        validate(&d),
        Err(Diagnostic {
            kind: DiagnosticKind::StateMustBeReference,
            location: Location::ParameterType(0),
        })
    );
}

#[test]
fn state_type_is_checked_before_extra_parameters() {
    let d = decl(
        "f",
        vec![ident_param("state", plain_type("MyState")), pattern_param(plain_type("(f64, f64)"))],
        None,
    );
    assert_eq!(kind_of(validate(&d)), DiagnosticKind::StateMustBeReference);
}

#[test]
fn extra_pattern_must_be_an_identifier() {
    let d = decl(
        "tick",
        vec![
            ident_param("state", reference_type(true, "MyState")),
            ident_param("dt", plain_type("f64")),
            pattern_param(plain_type("(f64, f64)")),
        ],
        Some(plain_type("View")),
    );
    assert_eq!(
        validate(&d),
        Err(Diagnostic {
            kind: DiagnosticKind::NonIdentifierParameterPattern,
            location: Location::ParameterPattern(2),
        })
    );
}

#[test]
fn reserved_identifier_is_refused() {
    let d = decl(
        "tick",
        vec![
            ident_param("state", reference_type(true, "MyState")),
            ident_param("__webtau_bad", plain_type("i32")),
        ],
        Some(plain_type("View")),
    );
    assert_eq!(
        validate(&d),
        Err(Diagnostic {
            kind: DiagnosticKind::ReservedIdentifier,
            location: Location::ParameterName(1),
        })
    );
}

#[test]
fn first_broken_extra_parameter_is_reported() {
    let d = decl(
        "tick",
        vec![
            ident_param("state", reference_type(true, "MyState")),
            ident_param("__webtau", plain_type("i32")),
            pattern_param(plain_type("(f64, f64)")),
        ],
        None,
    );
    assert_eq!(
        validate(&d),
        Err(Diagnostic {
            kind: DiagnosticKind::ReservedIdentifier,
            location: Location::ParameterName(1),
        })
    );
    let e = decl(
        "tick",
        vec![
            ident_param("state", reference_type(true, "MyState")),
            pattern_param(plain_type("(f64, f64)")),
            ident_param("__webtau", plain_type("i32")),
        ],
        None,
    );
    assert_eq!(
        validate(&e),
        Err(Diagnostic {
            kind: DiagnosticKind::NonIdentifierParameterPattern,
            location: Location::ParameterPattern(1),
        })
    );
}

fn decorated_param(name: &str, by_ref: bool, subpattern: bool, ty: TypeExpr) -> Param {
    Param::Typed {
        pat: Pattern::Ident { mutable: false, by_ref, subpattern, name: name.to_string() },
        ty,
    }
}

#[test]
fn ref_binding_is_no_plain_identifier() {
    let d = decl("f", vec![decorated_param("state", true, false, reference_type(true, "T"))], None);
    assert_eq!(
        validate(&d),
        Err(Diagnostic {
            kind: DiagnosticKind::NonIdentifierStatePattern,
            location: Location::ParameterPattern(0),
        })
    );
    let e = decl(
        "f",
        vec![
            ident_param("state", reference_type(true, "T")),
            decorated_param("x", true, false, plain_type("i32")),
        ],
        None,
    );
    assert_eq!(
        validate(&e),
        Err(Diagnostic {
            kind: DiagnosticKind::NonIdentifierParameterPattern,
            location: Location::ParameterPattern(1),
        })
    );
}

#[test]
fn binding_with_subpattern_is_no_plain_identifier() {
    let d = decl("f", vec![decorated_param("state", false, true, reference_type(true, "T"))], None);
    assert_eq!(kind_of(validate(&d)), DiagnosticKind::NonIdentifierStatePattern);
    let e = decl(
        "f",
        vec![
            ident_param("state", reference_type(true, "T")),
            ident_param("a", plain_type("i32")),
            decorated_param("__webtau_p", false, true, plain_type("(f64, f64)")),
        ],
        None,
    );
    assert_eq!(
        validate(&e),
        Err(Diagnostic {
            kind: DiagnosticKind::NonIdentifierParameterPattern,
            location: Location::ParameterPattern(2),
        })
    );
}

#[test]
fn state_identifier_may_bear_any_name() {
    let d = decl("f", vec![ident_param("__webtau_world", reference_type(false, "World"))], None);
    let cmd = validate(&d).unwrap();
    assert_eq!(cmd.state.ident, "__webtau_world");
}

#[test]
fn near_reserved_identifiers_are_accepted() {
    let d = decl(
        "f",
        vec![
            ident_param("state", reference_type(false, "World")),
            ident_param("__webta", plain_type("i32")),
            ident_param("_webtau", plain_type("i32")),
            ident_param("webtau__", plain_type("i32")),
        ],
        None,
    );
    assert_eq!(validate(&d).unwrap().extra_params.len(), 3);
}

#[test]
fn accepted_declaration_becomes_a_command() {
    let d = FnDecl {
        name: "tick".to_string(),
        is_async: false,
        params: vec![
            ident_param("game", reference_type(true, "Game")),
            mut_ident_param("dt", plain_type("f64")),
            ident_param("input", plain_type("i32")),
        ],
        ret: Some(plain_type("View")),
        body: "{ game.tick(dt, input) }".to_string(),
    };
    assert_eq!(
        validate(&d),
        Ok(CommandDeclaration {
            name: "tick".to_string(),
            state: StateParam { ident: "game".to_string(), ty: "Game".to_string(), mutable: true },
            extra_params: vec![
                ExtraParam { mutable: true, ident: "dt".to_string(), ty: "f64".to_string() },
                ExtraParam { mutable: false, ident: "input".to_string(), ty: "i32".to_string() },
            ],
            return_shape: ReturnShape::Plain("View".to_string()),
            body: "{ game.tick(dt, input) }".to_string(),
        })
    );
}

#[test]
fn shared_state_is_not_mutable() {
    let d = decl("get_view", vec![ident_param("state", reference_type(false, "T"))], None);
    let cmd = validate(&d).unwrap();
    assert!(!cmd.state.mutable);
    assert_eq!(cmd.state.ty, "T");
    assert_eq!(cmd.return_shape, ReturnShape::Unit);
    assert!(cmd.extra_params.is_empty());
}

#[test]
fn missing_return_type_is_unit() {
    assert_eq!(classify_return(&None), ReturnShape::Unit);
}

#[test]
fn ordinary_return_type_is_plain() {
    assert_eq!(classify_return(&Some(plain_type("View"))), ReturnShape::Plain("View".to_string()));
    assert_eq!(
        parse_return_type(&generic_type("Option<View>", "Option", &["View"])),
        ReturnShape::Plain("Option<View>".to_string())
    );
    assert_eq!(
        parse_return_type(&TypeExpr { text: "(i32, i32)".to_string(), shape: TypeShape::Other }),
        ReturnShape::Plain("(i32, i32)".to_string())
    );
    assert_eq!(
        parse_return_type(&reference_type(false, "View")),
        ReturnShape::Plain("&View".to_string())
    );
}

#[test]
fn result_with_two_arguments_is_an_outcome() {
    assert_eq!(
        parse_return_type(&generic_type("Result<View, MyError>", "Result", &["View", "MyError"])),
        ReturnShape::Outcome { ok: "View".to_string(), err: "MyError".to_string() }
    );
}

#[test]
fn qualified_result_is_read_by_its_last_segment() {
    assert_eq!(
        parse_return_type(&path(
            "std::result::Result<View, String>",
            vec![
                bare("std"),
                bare("result"),
                angle("Result", vec![ty_arg("View"), ty_arg("String")]),
            ]
        )),
        ReturnShape::Outcome { ok: "View".to_string(), err: "String".to_string() }
    );
    assert_eq!(
        parse_return_type(&path(
            "Result<View, String>::Item",
            vec![angle("Result", vec![ty_arg("View"), ty_arg("String")]), bare("Item")]
        )),
        ReturnShape::Plain("Result<View, String>::Item".to_string())
    );
}

#[test]
fn result_with_fewer_arguments_is_plain() {
    assert_eq!(
        parse_return_type(&path(
            "io::Result<View>",
            vec![bare("io"), angle("Result", vec![ty_arg("View")])]
        )),
        ReturnShape::Plain("io::Result<View>".to_string())
    );
    assert_eq!(parse_return_type(&plain_type("Result")), ReturnShape::Plain("Result".to_string()));
    assert_eq!(
        parse_return_type(&generic_type("Result<>", "Result", &[])),
        ReturnShape::Plain("Result<>".to_string())
    );
}

#[test]
fn result_with_more_arguments_is_plain() {
    assert_eq!(
        parse_return_type(&generic_type("Result<A, B, C>", "Result", &["A", "B", "C"])),
        ReturnShape::Plain("Result<A, B, C>".to_string())
    );
}

#[test]
fn only_type_arguments_count() {
    assert_eq!(
        parse_return_type(&path(
            "Result<'a, View<'a>, E>",
            vec![angle(
                "Result",
                vec![arg(GenericArgKind::Lifetime, "'a"), ty_arg("View<'a>"), ty_arg("E")]
            )]
        )),
        ReturnShape::Outcome { ok: "View<'a>".to_string(), err: "E".to_string() }
    );
    assert_eq!(
        parse_return_type(&path(
            "Result<View, 3>",
            vec![angle("Result", vec![ty_arg("View"), arg(GenericArgKind::Const, "3")])]
        )),
        ReturnShape::Plain("Result<View, 3>".to_string())
    );
    assert_eq!(
        parse_return_type(&path(
            "Result<View, Error = E>",
            vec![angle("Result", vec![ty_arg("View"), arg(GenericArgKind::Other, "Error = E")])]
        )),
        ReturnShape::Plain("Result<View, Error = E>".to_string())
    );
}

#[test]
fn other_heads_and_brackets_are_plain() {
    assert_eq!(
        parse_return_type(&generic_type("Outcome<A, B>", "Outcome", &["A", "B"])),
        ReturnShape::Plain("Outcome<A, B>".to_string())
    );
    assert_eq!(
        parse_return_type(&path(
            "Result(A, B)",
            vec![PathSegment { ident: "Result".to_string(), args: SegmentArgs::Parenthesized }]
        )),
        ReturnShape::Plain("Result(A, B)".to_string())
    );
    assert_eq!(parse_return_type(&path("", vec![])), ReturnShape::Plain("".to_string()));
}

#[test]
fn type_arguments_are_collected_in_order() {
    assert_eq!(
        collect_type_arguments(&SegmentArgs::AngleBracketed(vec![
            ty_arg("A"),
            arg(GenericArgKind::Lifetime, "'a"),
            ty_arg("B"),
            arg(GenericArgKind::Const, "N"),
            arg(GenericArgKind::Other, "X = Y"),
            ty_arg("C"),
        ])),
        vec!["A".to_string(), "B".to_string(), "C".to_string()]
    );
    assert!(collect_type_arguments(&SegmentArgs::Bare).is_empty());
    assert!(collect_type_arguments(&SegmentArgs::Parenthesized).is_empty());
    assert!(collect_type_arguments(&SegmentArgs::AngleBracketed(vec![])).is_empty());
}

#[test]
fn each_rule_has_its_message() {
    assert_eq!(
        DiagnosticKind::UnsupportedAsync.message(),
        "#[command] does not support async functions"
    );
    assert_eq!(
        DiagnosticKind::SelfReceiverUnsupported.message(),
        "#[command] does not support methods with `self`; use a free function with `state: &T` or `state: &mut T`"
    );
    assert_eq!(
        DiagnosticKind::MissingStateParameter.message(),
        "#[command] requires at least one parameter: `state: &T` or `state: &mut T`"
    );
    assert_eq!(
        DiagnosticKind::NonIdentifierStatePattern.message(),
        "#[command] state parameter must be a simple identifier (e.g., `state: &T`)"
    );
    assert_eq!(
        DiagnosticKind::StateMustBeReference.message(),
        "#[command] first parameter must be a reference: `&T` or `&mut T`"
    );
    assert_eq!(
        DiagnosticKind::NonIdentifierParameterPattern.message(),
        "#[command] parameters must use simple identifiers (no tuple or struct patterns)"
    );
    assert_eq!(
        DiagnosticKind::ReservedIdentifier.message(),
        "#[command] parameter names starting with `__webtau` are reserved for generated code"
    );
}

#[test]
fn diagnostic_message_is_that_of_its_rule() {
    let d = Diagnostic { kind: DiagnosticKind::UnsupportedAsync, location: Location::AsyncKeyword };
    assert_eq!(d.message(), DiagnosticKind::UnsupportedAsync.message());
}
