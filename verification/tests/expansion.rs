use extfn::error::{Anchor, Diagnostic, ErrorKind};
use extfn::expand::{
    declaration_of, documentation_of, expand, extract_target, simplify_self_param,
    strip_parentheses, validate, Target,
};
use extfn::function::{
    Attribute, AttributeForm, FunctionItem, Modifiers, OrdinaryParam, Param, Signature,
    SubjectParam, Visibility,
};
use extfn::generics::{GenericParam, Generics, ParamKind, Predicate};
use extfn::types::TypeExpr;

fn path(name: &str, args: Vec<TypeExpr>) -> TypeExpr {
    TypeExpr::Path { name: name.to_string(), args }
}

fn named(name: &str) -> TypeExpr {
    path(name, vec![])
}

fn reference(scope: Option<&str>, mutable: bool, inner: TypeExpr) -> TypeExpr {
    TypeExpr::Reference { scope: scope.map(|s| s.to_string()), mutable, inner: Box::new(inner) }
}

fn paren(inner: TypeExpr) -> TypeExpr {
    TypeExpr::Parenthesized { inner: Box::new(inner) }
}

fn existential(bounds: Vec<TypeExpr>) -> TypeExpr {
    TypeExpr::AnonymousExistential { bounds }
}

fn param(kind: ParamKind, name: &str, bounds: Vec<TypeExpr>) -> GenericParam {
    GenericParam { kind, name: name.to_string(), bounds, const_type: None }
}

fn typed_self(ty: TypeExpr) -> Param {
    Param::Subject(SubjectParam { attrs: vec![], by_reference: false, scope: None, mutable: false, ty: Some(ty) })
}

fn plain_self(by_reference: bool, scope: Option<&str>, mutable: bool) -> Param {
    Param::Subject(SubjectParam { attrs: vec![],
        by_reference,
        scope: scope.map(|s| s.to_string()),
        mutable,
        ty: None,
    })
}

fn ordinary(pattern: &str, ty: TypeExpr) -> Param {
    Param::Ordinary(OrdinaryParam { attrs: vec![], pattern: pattern.to_string(), ty })
}

fn plain() -> Modifiers {
    Modifiers { constant: false, asynchronous: false, unsafety: false }
}

fn doc(text: &str) -> Attribute {
    Attribute {
        outer: true,
        form: AttributeForm::NameValue,
        path: "doc".to_string(),
        text: text.to_string(),
    }
}

fn allowance() -> Attribute {
    Attribute {
        outer: true,
        form: AttributeForm::List,
        path: "allow".to_string(),
        text: "async_fn_in_trait, unknown_lints, clippy::allow_attributes".to_string(),
    }
}

fn function(
    name: &str,
    params: Vec<GenericParam>,
    inputs: Vec<Param>,
    output: Option<TypeExpr>,
    body: &str,
) -> FunctionItem {
    FunctionItem {
        attrs: vec![],
        vis: Visibility::Inherited,
        sig: Signature {
            abi: None,
            variadic: None,
            modifiers: plain(),
            name: name.to_string(),
            generics: Generics { params, where_clause: None },
            inputs,
            output,
        },
        body: body.to_string(),
    }
}

#[test]
fn no_parameter_is_refused_at_the_parameter_list() {
    let f = function("nothing", vec![], vec![], None, "{}");
    assert_eq!(
        expand("", f),
        Err(Diagnostic { kind: ErrorKind::MissingSubjectParameter, anchor: Anchor::ParameterList })
    );
}

#[test]
fn ordinary_first_parameter_is_refused_at_that_parameter() {
    let f = function("takes", vec![], vec![ordinary("x", named("usize"))], None, "{}");
    assert_eq!(
        expand("", f),
        Err(Diagnostic {
            kind: ErrorKind::InvalidSubjectParameter,
            anchor: Anchor::Parameter { index: 0 }
        })
    );
}

#[test]
fn self_without_a_type_is_refused() {
    let f = function("bare", vec![], vec![plain_self(false, None, false)], None, "{}");
    assert_eq!(
        expand("", f),
        Err(Diagnostic { kind: ErrorKind::UntypedSubject, anchor: Anchor::Parameter { index: 0 } })
    );
}

#[test]
fn bare_reference_self_is_refused() {
    let f = function("borrowed", vec![], vec![plain_self(true, None, true)], None, "{}");
    assert_eq!(
        expand("", f),
        Err(Diagnostic { kind: ErrorKind::UntypedSubject, anchor: Anchor::Parameter { index: 0 } })
    );
    let g = function(
        "borrowed",
        vec![],
        vec![Param::Subject(SubjectParam { attrs: vec![],
            by_reference: true,
            scope: None,
            mutable: false,
            ty: Some(named("usize")),
        })],
        None,
        "{}",
    );
    assert_eq!(expand("", g).unwrap_err().kind, ErrorKind::UntypedSubject);
}

#[test]
fn arguments_to_the_annotation_are_refused_first() {
    let f = function("nothing", vec![], vec![], None, "{}");
    assert_eq!(
        expand("flag", f),
        Err(Diagnostic {
            kind: ErrorKind::AttributeArgumentsNotAllowed,
            anchor: Anchor::AttributeArguments
        })
    );
    let g = function("incr", vec![], vec![typed_self(named("usize"))], None, "{}");
    assert_eq!(expand("x = 1", g).unwrap_err().kind, ErrorKind::AttributeArgumentsNotAllowed);
}

#[test]
fn messages_are_fixed() {
    let at = Anchor::ParameterList;
    assert_eq!(
        Diagnostic { kind: ErrorKind::AttributeArgumentsNotAllowed, anchor: at }.message(),
        "attribute arguments are not allowed"
    );
    assert_eq!(
        Diagnostic { kind: ErrorKind::MissingSubjectParameter, anchor: at }.message(),
        "function must have a parameter named `self`"
    );
    assert_eq!(
        Diagnostic { kind: ErrorKind::InvalidSubjectParameter, anchor: at }.message(),
        "parameter must be called `self`"
    );
    assert_eq!(
        Diagnostic { kind: ErrorKind::UntypedSubject, anchor: at }.message(),
        "the `self` parameter must have a type"
    );
}

#[test]
fn subject_incr_is_bound_to_usize() {
    let f = function(
        "subject_incr",
        vec![],
        vec![typed_self(named("usize"))],
        Some(named("usize")),
        "{ self + 1 }",
    );
    let artifact = expand("", f).unwrap();

    assert_eq!(artifact.interface.name, "subject_incr");
    assert_eq!(artifact.interface.vis, Visibility::Inherited);
    assert!(artifact.interface.generics.is_empty());
    assert!(artifact.interface.docs.is_empty());
    assert_eq!(artifact.interface.method_attrs, vec![allowance()]);
    let declared = &artifact.interface.method;
    assert_eq!(declared.name, "subject_incr");
    assert_eq!(declared.inputs, vec![plain_self(false, None, false)]);
    assert_eq!(declared.output, Some(named("usize")));
    assert!(declared.generics.params.is_empty());
    assert_eq!(declared.generics.where_clause, Some(vec![]));

    assert_eq!(artifact.binding.interface, "subject_incr");
    assert_eq!(artifact.binding.subject, named("usize"));
    assert!(artifact.binding.generics.is_empty());
    assert_eq!(artifact.binding.method.body, "{ self + 1 }");
    assert_eq!(artifact.binding.method.sig.inputs, vec![plain_self(false, None, false)]);
    assert_eq!(artifact.binding.method.sig.output, Some(named("usize")));
    assert_eq!(artifact.binding.method.vis, Visibility::Inherited);
}

#[test]
fn string_len_gets_one_fresh_parameter() {
    let f = function(
        "string_len",
        vec![],
        vec![typed_self(existential(vec![named("Display")]))],
        Some(named("usize")),
        "{ self.to_string().len() }",
    );
    let artifact = expand("", f).unwrap();

    assert_eq!(artifact.binding.generics, vec![param(ParamKind::Type, "_T1", vec![])]);
    assert_eq!(artifact.interface.generics, vec![param(ParamKind::Type, "_T1", vec![])]);
    assert_eq!(artifact.binding.subject, named("_T1"));
    let clause = Some(vec![Predicate::Type {
        bounded: named("_T1"),
        bounds: vec![named("Display")],
    }]);
    assert_eq!(artifact.binding.method.sig.generics.where_clause, clause);
    assert_eq!(artifact.interface.method.generics.where_clause, clause);
    assert!(artifact.binding.method.sig.generics.params.is_empty());
}

#[test]
fn only_the_parameters_of_the_subject_type_move_to_the_binding() {
    let f = function(
        "push_all",
        vec![param(ParamKind::Type, "T", vec![]), param(ParamKind::Type, "U", vec![])],
        vec![typed_self(path("Vec", vec![named("T")])), ordinary("other", named("U"))],
        None,
        "{}",
    );
    let artifact = expand("", f).unwrap();

    assert_eq!(artifact.binding.generics, vec![param(ParamKind::Type, "T", vec![])]);
    assert_eq!(artifact.binding.subject, path("Vec", vec![named("T")]));
    assert_eq!(
        artifact.interface.method.generics.params,
        vec![param(ParamKind::Type, "U", vec![])]
    );
    assert_eq!(
        artifact.binding.method.sig.generics.params,
        vec![param(ParamKind::Type, "U", vec![])]
    );
    assert_eq!(
        artifact.binding.generics.iter().filter(|p| p.name == "T").count(),
        1
    );
    assert!(artifact.interface.method.generics.params.iter().all(|p| p.name != "T"));
}

#[test]
fn nested_existentials_are_numbered_from_the_inside() {
    let inner = existential(vec![named("Display")]);
    let outer = existential(vec![path("Iterator", vec![inner])]);
    let subject = TypeExpr::Tuple { elems: vec![outer, existential(vec![named("Clone")])] };
    let f = function("walk", vec![], vec![typed_self(subject)], None, "{}");
    let artifact = expand("", f).unwrap();

    assert_eq!(
        artifact.binding.subject,
        TypeExpr::Tuple { elems: vec![named("_T2"), named("_T3")] }
    );
    assert_eq!(
        artifact.binding.generics,
        vec![
            param(ParamKind::Type, "_T1", vec![]),
            param(ParamKind::Type, "_T2", vec![]),
            param(ParamKind::Type, "_T3", vec![]),
        ]
    );
    assert_eq!(
        artifact.binding.method.sig.generics.where_clause,
        Some(vec![
            Predicate::Type { bounded: named("_T1"), bounds: vec![named("Display")] },
            Predicate::Type {
                bounded: named("_T2"),
                bounds: vec![path("Iterator", vec![named("_T1")])]
            },
            Predicate::Type { bounded: named("_T3"), bounds: vec![named("Clone")] },
        ])
    );
}

#[test]
fn a_reference_moves_from_the_type_to_the_receiver() {
    let f = function(
        "total",
        vec![param(ParamKind::ScopeTag, "a", vec![]), param(ParamKind::Type, "T", vec![])],
        vec![typed_self(paren(reference(Some("a"), true, paren(path("Vec", vec![named("T")])))))],
        None,
        "{}",
    );
    let artifact = expand("", f).unwrap();

    assert_eq!(artifact.binding.subject, path("Vec", vec![named("T")]));
    assert_eq!(artifact.binding.method.sig.inputs, vec![plain_self(true, Some("a"), true)]);
    assert_eq!(artifact.interface.method.inputs, vec![plain_self(true, Some("a"), true)]);
    assert_eq!(artifact.binding.generics, vec![param(ParamKind::Type, "T", vec![])]);
    assert_eq!(
        artifact.interface.method.generics.params,
        vec![param(ParamKind::ScopeTag, "a", vec![])]
    );
}

#[test]
fn a_declaration_has_no_pattern_and_no_mut_by_value() {
    let mut f = function(
        "take",
        vec![],
        vec![
            Param::Subject(SubjectParam { attrs: vec![],
                by_reference: false,
                scope: None,
                mutable: true,
                ty: Some(named("bool")),
            }),
            ordinary("(mut a, mut b)", TypeExpr::Tuple { elems: vec![named("bool"), named("bool")] }),
        ],
        None,
        "{}",
    );
    f.vis = Visibility::Public;
    let artifact = expand("", f).unwrap();

    let pair = TypeExpr::Tuple { elems: vec![named("bool"), named("bool")] };
    assert_eq!(
        artifact.interface.method.inputs,
        vec![plain_self(false, None, false), ordinary("_", pair.clone())]
    );
    assert_eq!(
        artifact.binding.method.sig.inputs,
        vec![plain_self(false, None, true), ordinary("(mut a, mut b)", pair)]
    );
    assert_eq!(artifact.interface.vis, Visibility::Public);
    assert_eq!(artifact.binding.method.vis, Visibility::Inherited);
}

#[test]
fn documentation_goes_to_the_interface_and_all_attributes_stay_on_the_function() {
    let inline = Attribute {
        outer: true,
        form: AttributeForm::Word,
        path: "inline".to_string(),
        text: String::new(),
    };
    let inner_doc = Attribute { outer: false, ..doc("\" inside\"") };
    let doc_list = Attribute { form: AttributeForm::List, ..doc("hidden") };
    let mut f = function("noted", vec![], vec![typed_self(named("bool"))], None, "{}");
    f.attrs = vec![doc("\" first\""), inline.clone(), inner_doc.clone(), doc_list.clone(), doc("\" second\"")];
    let artifact = expand("", f).unwrap();

    assert_eq!(artifact.interface.docs, vec![doc("\" first\""), doc("\" second\"")]);
    assert_eq!(
        artifact.interface.method_attrs,
        vec![doc("\" first\""), doc("\" second\""), allowance()]
    );
    assert_eq!(
        artifact.binding.method.attrs,
        vec![doc("\" first\""), inline, inner_doc, doc_list, doc("\" second\"")]
    );
}

#[test]
fn bounds_of_the_binding_move_behind_the_existing_clause() {
    let mut f = function(
        "bounded",
        vec![
            param(ParamKind::ScopeTag, "a", vec![TypeExpr::ScopeTag { name: "b".to_string() }]),
            param(ParamKind::ScopeTag, "b", vec![]),
            param(ParamKind::Type, "T", vec![named("Clone"), named("Send")]),
            param(ParamKind::Type, "U", vec![named("Copy")]),
        ],
        vec![typed_self(reference(Some("a"), false, path("Box", vec![named("T")])))],
        None,
        "{}",
    );
    f.sig.generics.where_clause =
        Some(vec![Predicate::Type { bounded: named("U"), bounds: vec![named("Default")] }]);
    let artifact = expand("", f).unwrap();

    assert_eq!(artifact.binding.generics, vec![param(ParamKind::Type, "T", vec![])]);
    assert_eq!(
        artifact.binding.method.sig.generics.params,
        vec![
            param(ParamKind::ScopeTag, "a", vec![TypeExpr::ScopeTag { name: "b".to_string() }]),
            param(ParamKind::ScopeTag, "b", vec![]),
            param(ParamKind::Type, "U", vec![named("Copy")]),
        ]
    );
    assert_eq!(
        artifact.binding.method.sig.generics.where_clause,
        Some(vec![
            Predicate::Type { bounded: named("U"), bounds: vec![named("Default")] },
            Predicate::Type { bounded: named("T"), bounds: vec![named("Clone"), named("Send")] },
        ])
    );
}

#[test]
fn validate_hands_out_the_subject() {
    let f = function("incr", vec![], vec![typed_self(named("usize"))], None, "{}");
    let subject = validate(&f.sig).unwrap();
    assert_eq!(subject.ty, Some(named("usize")));
    let g = function("none", vec![], vec![], None, "{}");
    assert_eq!(validate(&g.sig).unwrap_err().kind, ErrorKind::MissingSubjectParameter);
}

#[test]
fn simplify_keeps_mut_only_by_value() {
    let mut by_value =
        SubjectParam { attrs: vec![], by_reference: false, scope: None, mutable: true, ty: Some(paren(named("T"))) };
    assert_eq!(simplify_self_param(&mut by_value), named("T"));
    assert_eq!(
        by_value,
        SubjectParam { attrs: vec![], by_reference: false, scope: None, mutable: true, ty: None }
    );

    let mut shared = SubjectParam { attrs: vec![],
        by_reference: false,
        scope: None,
        mutable: true,
        ty: Some(reference(None, false, paren(named("T")))),
    };
    assert_eq!(simplify_self_param(&mut shared), paren(named("T")));
    assert_eq!(shared, SubjectParam { attrs: vec![], by_reference: true, scope: None, mutable: false, ty: None });
}

#[test]
fn strip_parentheses_stops_at_the_first_other_node() {
    assert_eq!(strip_parentheses(paren(paren(named("T")))), named("T"));
    assert_eq!(
        strip_parentheses(paren(reference(None, false, paren(named("T"))))),
        reference(None, false, paren(named("T")))
    );
    assert_eq!(strip_parentheses(named("T")), named("T"));
}

#[test]
fn documentation_is_outer_named_doc_with_a_value() {
    let attrs = vec![
        doc("a"),
        Attribute { outer: false, ..doc("b") },
        Attribute { path: "docs".to_string(), ..doc("c") },
        Attribute { form: AttributeForm::Word, ..doc("d") },
        doc("e"),
    ];
    assert_eq!(documentation_of(&attrs), vec![doc("a"), doc("e")]);
    assert_eq!(documentation_of(&vec![]), vec![]);
}

#[test]
fn declaration_keeps_mut_by_reference() {
    let sig = Signature {
        abi: None,
        variadic: None,
        modifiers: Modifiers { constant: false, asynchronous: true, unsafety: true },
        name: "poke".to_string(),
        generics: Generics {
            params: vec![param(ParamKind::Type, "U", vec![named("Copy")])],
            where_clause: Some(vec![]),
        },
        inputs: vec![plain_self(true, None, true), ordinary("Point { x, y }", named("Point"))],
        output: None,
    };
    let declared = declaration_of(&sig);
    assert_eq!(declared.inputs, vec![plain_self(true, None, true), ordinary("_", named("Point"))]);
    assert_eq!(declared.modifiers, sig.modifiers);
    assert_eq!(declared.name, sig.name);
    assert_eq!(declared.generics, sig.generics);
    assert_eq!(declared.output, None);
}

#[test]
fn the_target_is_under_the_brackets_and_one_reference() {
    assert_eq!(
        extract_target(paren(paren(reference(Some("a"), true, reference(None, false, named("T")))))),
        Target {
            subject: reference(None, false, named("T")),
            by_reference: true,
            scope: Some("a".to_string()),
            mutable: true,
        }
    );
    assert_eq!(
        extract_target(paren(named("T"))),
        Target { subject: named("T"), by_reference: false, scope: None, mutable: false }
    );
    assert_eq!(
        extract_target(reference(None, false, paren(named("T")))),
        Target { subject: paren(named("T")), by_reference: true, scope: None, mutable: false }
    );
}

#[test]
fn an_introduced_name_is_none_of_the_names_in_scope() {
    let f = function(
        "clash",
        vec![param(ParamKind::Type, "_T1", vec![])],
        vec![typed_self(existential(vec![named("Clone")]))],
        None,
        "{}",
    );
    let artifact = expand("", f).unwrap();
    assert_eq!(artifact.binding.generics, vec![param(ParamKind::Type, "_T0001", vec![])]);
    assert_eq!(artifact.binding.subject, named("_T0001"));
    assert_eq!(
        artifact.binding.method.sig.generics.params,
        vec![param(ParamKind::Type, "_T1", vec![])]
    );

    let g = function(
        "clash",
        vec![param(ParamKind::Type, "_T1", vec![])],
        vec![typed_self(TypeExpr::Tuple {
            elems: vec![existential(vec![named("Ord")]), named("_T1"), named("_T22")],
        })],
        None,
        "{}",
    );
    let artifact = expand("", g).unwrap();
    assert_eq!(
        artifact.binding.subject,
        TypeExpr::Tuple { elems: vec![named("_T00001"), named("_T1"), named("_T22")] }
    );
    assert_eq!(
        artifact.binding.generics,
        vec![param(ParamKind::Type, "_T00001", vec![]), param(ParamKind::Type, "_T1", vec![])]
    );
    assert!(artifact.binding.method.sig.generics.params.is_empty());
}

#[test]
fn a_parameter_written_as_the_first_segment_moves_to_the_binding() {
    let f = function(
        "first",
        vec![param(ParamKind::Type, "T", vec![named("Iterator")])],
        vec![typed_self(TypeExpr::Member {
            base: Box::new(named("T")),
            name: "Item".to_string(),
            args: vec![],
        })],
        None,
        "{}",
    );
    let artifact = expand("", f).unwrap();
    assert_eq!(artifact.binding.generics, vec![param(ParamKind::Type, "T", vec![])]);
    assert!(artifact.binding.method.sig.generics.params.is_empty());
    assert_eq!(
        artifact.binding.method.sig.generics.where_clause,
        Some(vec![Predicate::Type { bounded: named("T"), bounds: vec![named("Iterator")] }])
    );
}

#[test]
fn every_kind_of_parameter_is_partitioned_by_the_subject_type() {
    let mut n = param(ParamKind::Constant, "N", vec![]);
    n.const_type = Some(named("usize"));
    let mut m = param(ParamKind::Constant, "M", vec![]);
    m.const_type = Some(named("usize"));
    let all = vec![
        param(ParamKind::ScopeTag, "a", vec![]),
        param(ParamKind::ScopeTag, "b", vec![]),
        param(ParamKind::Type, "T", vec![]),
        param(ParamKind::Type, "U", vec![]),
        n.clone(),
        m.clone(),
    ];
    let subject = reference(
        Some("b"),
        false,
        TypeExpr::Array {
            elem: Box::new(reference(Some("a"), false, named("T"))),
            len: "N".to_string(),
        },
    );
    let f = function(
        "walk",
        all.clone(),
        vec![typed_self(subject), ordinary("other", named("U"))],
        None,
        "{}",
    );
    let artifact = expand("", f).unwrap();

    assert_eq!(artifact.binding.generics, vec![all[0].clone(), all[2].clone(), n]);
    assert_eq!(
        artifact.interface.method.generics.params,
        vec![all[1].clone(), all[3].clone(), m]
    );
    assert_eq!(artifact.binding.method.sig.inputs[0], plain_self(true, Some("b"), false));
    for p in &all {
        let bound = artifact.binding.generics.iter().filter(|q| *q == p).count();
        let kept = artifact.interface.method.generics.params.iter().filter(|q| *q == p).count();
        assert_eq!(bound + kept, 1);
    }
}

#[test]
fn the_calling_convention_and_the_attributes_of_parameters_pass_through() {
    let cold = Attribute {
        outer: true,
        form: AttributeForm::List,
        path: "cfg".to_string(),
        text: "unix".to_string(),
    };
    let mut f = function(
        "call",
        vec![],
        vec![
            Param::Subject(SubjectParam {
                attrs: vec![cold.clone()],
                by_reference: false,
                scope: None,
                mutable: false,
                ty: Some(reference(None, false, named("u8"))),
            }),
            Param::Ordinary(OrdinaryParam {
                attrs: vec![cold.clone()],
                pattern: "x".to_string(),
                ty: named("u8"),
            }),
        ],
        None,
        "{}",
    );
    f.sig.abi = Some("extern \"C\"".to_string());
    f.sig.variadic = Some("...".to_string());
    f.sig.modifiers.unsafety = true;
    let artifact = expand("", f).unwrap();

    let receiver = Param::Subject(SubjectParam {
        attrs: vec![cold.clone()],
        by_reference: true,
        scope: None,
        mutable: false,
        ty: None,
    });
    for sig in [&artifact.interface.method, &artifact.binding.method.sig] {
        assert_eq!(sig.abi, Some("extern \"C\"".to_string()));
        assert_eq!(sig.variadic, Some("...".to_string()));
        assert!(sig.modifiers.unsafety);
        assert_eq!(sig.inputs[0], receiver);
    }
    assert_eq!(
        artifact.interface.method.inputs[1],
        Param::Ordinary(OrdinaryParam {
            attrs: vec![cold.clone()],
            pattern: "_".to_string(),
            ty: named("u8"),
        })
    );
    assert_eq!(
        artifact.binding.method.sig.inputs[1],
        Param::Ordinary(OrdinaryParam { attrs: vec![cold], pattern: "x".to_string(), ty: named("u8") })
    );
}
