use extfn::bounds::move_bounds_to_where_clause;
use extfn::find::{extract_impl_generics, type_uses_generic_param, FindGenericParam};
use extfn::generics::{GenericParam, Generics, ParamKind, Predicate};
use extfn::rewrite::{decimal_text, fresh_ident, ImplTraitsIntoGenerics};
use extfn::scope::{marked_length, padding_for, widest_in};
use extfn::types::TypeExpr;

fn ty(name: &str, args: Vec<TypeExpr>) -> TypeExpr {
    TypeExpr::Path { name: name.to_string(), args }
}

fn leaf(name: &str) -> TypeExpr {
    ty(name, vec![])
}

fn tag(name: &str) -> TypeExpr {
    TypeExpr::ScopeTag { name: name.to_string() }
}

fn generic(kind: ParamKind, name: &str, bounds: Vec<TypeExpr>) -> GenericParam {
    GenericParam { kind, name: name.to_string(), bounds, const_type: None }
}

fn array(elem: TypeExpr, len: &str) -> TypeExpr {
    TypeExpr::Array { elem: Box::new(elem), len: len.to_string() }
}

#[test]
fn a_type_parameter_is_found_as_a_path_without_arguments() {
    let t = generic(ParamKind::Type, "T", vec![]);
    assert!(type_uses_generic_param(&leaf("T"), &t));
    assert!(type_uses_generic_param(&ty("Vec", vec![ty("Option", vec![leaf("T")])]), &t));
    assert!(!type_uses_generic_param(&ty("T", vec![leaf("u8")]), &t));
    assert!(!type_uses_generic_param(&leaf("U"), &t));
    assert!(!type_uses_generic_param(&tag("T"), &t));
    assert!(!type_uses_generic_param(&array(leaf("u8"), "T"), &t));
}

#[test]
fn a_scope_tag_is_found_where_it_is_written() {
    let a = generic(ParamKind::ScopeTag, "a", vec![]);
    let borrowed =
        TypeExpr::Reference { scope: Some("a".to_string()), mutable: false, inner: Box::new(leaf("str")) };
    let anonymous = TypeExpr::Reference { scope: None, mutable: false, inner: Box::new(leaf("a")) };
    assert!(type_uses_generic_param(&borrowed, &a));
    assert!(!type_uses_generic_param(&anonymous, &a));
    assert!(type_uses_generic_param(&ty("Cow", vec![tag("a"), leaf("str")]), &a));
    assert!(type_uses_generic_param(
        &TypeExpr::DynamicCapability { bounds: vec![leaf("Any"), tag("a")] },
        &a
    ));
    assert!(!type_uses_generic_param(&ty("Cow", vec![tag("b"), leaf("a")]), &a));
}

#[test]
fn a_constant_is_found_as_the_text_of_an_array_length() {
    let n = generic(ParamKind::Constant, "N", vec![]);
    assert!(type_uses_generic_param(&array(leaf("u8"), "N"), &n));
    assert!(!type_uses_generic_param(&array(leaf("u8"), "N + 1"), &n));
    assert!(!type_uses_generic_param(&ty("Matrix", vec![leaf("N")]), &n));
    assert!(type_uses_generic_param(
        &TypeExpr::Tuple { elems: vec![leaf("u8"), array(array(leaf("N"), "N"), "4")] },
        &n
    ));
}

#[test]
fn the_search_looks_into_every_shape() {
    let t = generic(ParamKind::Type, "T", vec![]);
    let pointer = TypeExpr::FunctionPointer { inputs: vec![leaf("u8")], output: Box::new(leaf("T")) };
    assert!(type_uses_generic_param(&pointer, &t));
    let pointer = TypeExpr::FunctionPointer { inputs: vec![leaf("T")], output: Box::new(leaf("u8")) };
    assert!(type_uses_generic_param(&pointer, &t));
    let wrapped = TypeExpr::Parenthesized { inner: Box::new(leaf("T")) };
    assert!(type_uses_generic_param(&wrapped, &t));
    let some = TypeExpr::AnonymousExistential { bounds: vec![ty("Into", vec![leaf("T")])] };
    assert!(type_uses_generic_param(&some, &t));
    let none = TypeExpr::Tuple { elems: vec![] };
    assert!(!type_uses_generic_param(&none, &t));
}

#[test]
fn a_search_starts_with_nothing_found_and_never_forgets() {
    let t = generic(ParamKind::Type, "T", vec![]);
    let mut search = FindGenericParam::new(&t);
    assert!(!search.found());
    search.visit_type(&leaf("U"));
    assert!(!search.found());
    search.visit_type(&leaf("T"));
    assert!(search.found());
    search.visit_type(&leaf("U"));
    assert!(search.found());

    let a = generic(ParamKind::ScopeTag, "a", vec![]);
    let mut search = FindGenericParam::new(&a);
    search.visit_lifetime(&"b".to_string());
    assert!(!search.found());
    search.visit_lifetime(&"a".to_string());
    assert!(search.found());

    let n = generic(ParamKind::Constant, "N", vec![]);
    let mut search = FindGenericParam::new(&n);
    search.visit_type_array(&leaf("u8"), &"N".to_string());
    assert!(search.found());

    let mut search = FindGenericParam::new(&t);
    search.visit_type_path(&"T".to_string(), &vec![leaf("u8")]);
    assert!(!search.found());
    search.visit_types(&vec![leaf("u8"), leaf("T")]);
    assert!(search.found());
}

#[test]
fn the_partition_is_total_disjoint_and_keeps_the_order() {
    let all = vec![
        generic(ParamKind::ScopeTag, "a", vec![]),
        generic(ParamKind::Type, "T", vec![leaf("Clone")]),
        generic(ParamKind::Type, "U", vec![]),
        generic(ParamKind::Constant, "N", vec![]),
        generic(ParamKind::Type, "V", vec![]),
    ];
    let clause = Some(vec![Predicate::Type { bounded: leaf("U"), bounds: vec![leaf("Copy")] }]);
    let mut generics = Generics { params: all.clone(), where_clause: clause.clone() };
    let subject = array(ty("Pair", vec![leaf("V"), leaf("T")]), "N");
    let extracted = extract_impl_generics(&subject, &mut generics);

    assert_eq!(extracted.params, vec![all[1].clone(), all[3].clone(), all[4].clone()]);
    assert_eq!(extracted.where_clause, None);
    assert_eq!(generics.params, vec![all[0].clone(), all[2].clone()]);
    assert_eq!(generics.where_clause, clause);
    for p in &all {
        let promoted = extracted.params.iter().filter(|q| *q == p).count();
        let retained = generics.params.iter().filter(|q| *q == p).count();
        assert_eq!(promoted + retained, 1);
        assert_eq!(promoted == 1, type_uses_generic_param(&subject, p));
    }
}

#[test]
fn fresh_names_are_underscore_t_and_the_number() {
    assert_eq!(fresh_ident(0, 1), "_T1");
    assert_eq!(fresh_ident(0, 10), "_T10");
    assert_eq!(fresh_ident(0, 207), "_T207");
    assert_eq!(fresh_ident(3, 12), "_T00012");
    assert_eq!(decimal_text(0), "0");
    assert_eq!(decimal_text(9), "9");
    assert_eq!(decimal_text(1234567890), "1234567890");
    assert_eq!(decimal_text(u128::MAX), u128::MAX.to_string());
}

#[test]
fn the_rewrite_adds_to_the_generics_it_was_given() {
    let held = Generics {
        params: vec![generic(ParamKind::Type, "X", vec![])],
        where_clause: Some(vec![]),
    };
    let mut rewriter = ImplTraitsIntoGenerics::new(held, 0);
    let mut first = TypeExpr::AnonymousExistential { bounds: vec![leaf("Clone"), tag("a")] };
    rewriter.visit_type_mut(&mut first);
    let second = rewriter.rewritten(&ty(
        "Box",
        vec![TypeExpr::DynamicCapability {
            bounds: vec![ty("Fn", vec![TypeExpr::AnonymousExistential { bounds: vec![] }])],
        }],
    ));
    let unchanged = rewriter.rewritten(&array(leaf("u8"), "4"));
    let generics = rewriter.into_generics();

    assert_eq!(first, leaf("_T1"));
    assert_eq!(
        second,
        ty("Box", vec![TypeExpr::DynamicCapability { bounds: vec![ty("Fn", vec![leaf("_T2")])] }])
    );
    assert_eq!(unchanged, array(leaf("u8"), "4"));
    assert_eq!(
        generics.params,
        vec![
            generic(ParamKind::Type, "X", vec![]),
            generic(ParamKind::Type, "_T1", vec![leaf("Clone"), tag("a")]),
            generic(ParamKind::Type, "_T2", vec![]),
        ]
    );
    assert_eq!(generics.where_clause, Some(vec![]));
}

#[test]
fn a_function_pointer_is_rewritten_inputs_first() {
    let mut rewriter = ImplTraitsIntoGenerics::new(Generics::default(), 0);
    let some = |name: &str| TypeExpr::AnonymousExistential { bounds: vec![leaf(name)] };
    let pointer = TypeExpr::FunctionPointer {
        inputs: vec![some("A"), some("B")],
        output: Box::new(some("C")),
    };
    let out = rewriter.rewritten(&pointer);
    assert_eq!(
        out,
        TypeExpr::FunctionPointer {
            inputs: vec![leaf("_T1"), leaf("_T2")],
            output: Box::new(leaf("_T3")),
        }
    );
    let names: Vec<String> =
        rewriter.into_generics().params.into_iter().map(|p| p.bounds[0].clone()).map(|b| match b {
            TypeExpr::Path { name, .. } => name,
            _ => String::new(),
        }).collect();
    assert_eq!(names, vec!["A", "B", "C"]);
}

#[test]
fn bounds_move_for_scope_tags_and_types_only() {
    let mut constant = generic(ParamKind::Constant, "N", vec![leaf("odd")]);
    constant.const_type = Some(leaf("usize"));
    let mut params = vec![
        generic(ParamKind::ScopeTag, "a", vec![tag("b"), tag("c")]),
        generic(ParamKind::Type, "T", vec![]),
        constant.clone(),
        generic(ParamKind::Type, "U", vec![leaf("Clone")]),
    ];
    let mut clause = None;
    move_bounds_to_where_clause(&mut params, &mut clause);

    assert_eq!(
        params,
        vec![
            generic(ParamKind::ScopeTag, "a", vec![]),
            generic(ParamKind::Type, "T", vec![]),
            constant,
            generic(ParamKind::Type, "U", vec![]),
        ]
    );
    assert_eq!(
        clause,
        Some(vec![
            Predicate::ScopeTag { tag: "a".to_string(), bounds: vec![tag("b"), tag("c")] },
            Predicate::Type { bounded: leaf("U"), bounds: vec![leaf("Clone")] },
        ])
    );
}

#[test]
fn a_clause_is_made_even_where_nothing_moves() {
    let mut params: Vec<GenericParam> = vec![];
    let mut clause = None;
    move_bounds_to_where_clause(&mut params, &mut clause);
    assert_eq!(clause, Some(vec![]));
    assert!(params.is_empty());
}

#[test]
fn copies_are_equal_to_what_they_copy() {
    let t = TypeExpr::Tuple {
        elems: vec![
            array(ty("Vec", vec![leaf("T")]), "N"),
            TypeExpr::Reference { scope: Some("a".to_string()), mutable: true, inner: Box::new(leaf("u8")) },
            TypeExpr::FunctionPointer { inputs: vec![tag("a")], output: Box::new(leaf("u8")) },
        ],
    };
    assert_eq!(t.clone(), t);
    let p = generic(ParamKind::Type, "T", vec![t.clone()]);
    assert_eq!(p.clone(), p);
    let g = Generics {
        params: vec![p],
        where_clause: Some(vec![Predicate::ScopeTag { tag: "a".to_string(), bounds: vec![tag("b")] }]),
    };
    assert_eq!(g.clone(), g);
}

#[test]
fn the_name_of_a_bound_is_not_a_type() {
    let t = generic(ParamKind::Type, "T", vec![]);
    let object = TypeExpr::DynamicCapability { bounds: vec![leaf("T")] };
    assert!(!type_uses_generic_param(&object, &t));
    let some = TypeExpr::AnonymousExistential { bounds: vec![leaf("T"), ty("From", vec![leaf("T")])] };
    assert!(type_uses_generic_param(&some, &t));
    let nested = TypeExpr::AnonymousExistential {
        bounds: vec![ty("Iterator", vec![TypeExpr::DynamicCapability { bounds: vec![leaf("T")] }])],
    };
    assert!(!type_uses_generic_param(&nested, &t));

    let mut search = FindGenericParam::new(&t);
    search.visit_bound(&leaf("T"));
    assert!(!search.found());
    search.visit_bounds(&vec![leaf("A"), ty("B", vec![leaf("T")])]);
    assert!(search.found());
}

fn member(base: TypeExpr, name: &str, args: Vec<TypeExpr>) -> TypeExpr {
    TypeExpr::Member { base: Box::new(base), name: name.to_string(), args }
}

fn verbatim(text: &str, parts: Vec<TypeExpr>) -> TypeExpr {
    TypeExpr::Verbatim { text: text.to_string(), parts }
}

#[test]
fn a_type_parameter_is_found_in_any_segment_of_a_path() {
    let t = generic(ParamKind::Type, "T", vec![]);
    assert!(type_uses_generic_param(&member(leaf("T"), "Item", vec![]), &t));
    assert!(type_uses_generic_param(&member(leaf("a"), "T", vec![]), &t));
    assert!(!type_uses_generic_param(&member(leaf("a"), "T", vec![leaf("u8")]), &t));
    assert!(type_uses_generic_param(&member(ty("a", vec![leaf("T")]), "B", vec![]), &t));
    assert!(type_uses_generic_param(&member(leaf("a"), "B", vec![leaf("T")]), &t));
    assert!(!type_uses_generic_param(&member(leaf("std"), "String", vec![]), &t));
    let item = generic(ParamKind::Type, "Item", vec![]);
    assert!(type_uses_generic_param(&member(leaf("T"), "Item", vec![]), &item));
}

#[test]
fn the_search_reaches_into_a_qualified_path_and_other_shapes() {
    let t = generic(ParamKind::Type, "T", vec![]);
    let u = generic(ParamKind::Type, "U", vec![]);
    let v = generic(ParamKind::Type, "V", vec![]);
    let a = generic(ParamKind::ScopeTag, "a", vec![]);
    let qualified = member(verbatim("< __0 as Tr >", vec![leaf("U")]), "Out", vec![]);
    let result = ty("Result", vec![leaf("T"), qualified]);
    assert!(type_uses_generic_param(&result, &t));
    assert!(type_uses_generic_param(&result, &u));
    assert!(!type_uses_generic_param(&result, &v));
    assert!(!type_uses_generic_param(&result, &generic(ParamKind::ScopeTag, "T", vec![])));
    assert!(!type_uses_generic_param(&result, &generic(ParamKind::Constant, "T", vec![])));

    let callable = ty(
        "Box",
        vec![TypeExpr::DynamicCapability {
            bounds: vec![verbatim("Fn (__0) -> __1", vec![leaf("T"), leaf("U")])],
        }],
    );
    assert!(type_uses_generic_param(&callable, &t));
    assert!(type_uses_generic_param(&callable, &u));
    assert!(!type_uses_generic_param(&callable, &v));

    let pointer = verbatim("* const __0", vec![leaf("T")]);
    assert!(type_uses_generic_param(&pointer, &t));
    let higher = verbatim("for < 'a > fn (& 'a __0)", vec![tag("a"), leaf("T")]);
    assert!(type_uses_generic_param(&higher, &a));
    assert!(type_uses_generic_param(&higher, &t));
    assert!(!type_uses_generic_param(&verbatim("T", vec![]), &t));
}

#[test]
fn the_rewrite_reaches_into_segments_and_other_shapes() {
    let some = |name: &str| TypeExpr::AnonymousExistential { bounds: vec![leaf(name)] };
    let mut rewriter = ImplTraitsIntoGenerics::new(Generics::default(), 2);
    let out = rewriter.rewritten(&member(
        verbatim("< __0 as Tr >", vec![some("A")]),
        "Out",
        vec![some("B"), verbatim("* mut __0", vec![some("C")])],
    ));
    assert_eq!(
        out,
        member(
            verbatim("< __0 as Tr >", vec![leaf("_T001")]),
            "Out",
            vec![leaf("_T002"), verbatim("* mut __0", vec![leaf("_T003")])],
        )
    );
    assert_eq!(rewriter.into_generics().params.len(), 3);
}

#[test]
fn the_padding_is_the_length_of_the_longest_text_with_the_marker() {
    assert_eq!(marked_length(&"_T1".to_string()), 3);
    assert_eq!(marked_length(&"MY_TYPE".to_string()), 7);
    assert_eq!(marked_length(&"_t1".to_string()), 0);
    assert_eq!(marked_length(&"T_".to_string()), 0);
    assert_eq!(marked_length(&"_".to_string()), 0);
    assert_eq!(marked_length(&String::new()), 0);
    assert_eq!(marked_length(&"_T".to_string()), 2);

    let subject = TypeExpr::Tuple {
        elems: vec![
            member(leaf("_T12"), "Display", vec![array(leaf("u8"), "N_T + 1")]),
            TypeExpr::Reference {
                scope: Some("_Tag".to_string()),
                mutable: false,
                inner: Box::new(verbatim("* const _T < __0 >", vec![tag("x_Tx")])),
            },
        ],
    };
    assert_eq!(widest_in(&subject), 18);
    assert_eq!(widest_in(&leaf("Display")), 0);
    let params = vec![generic(ParamKind::Type, "_T1", vec![]), generic(ParamKind::Type, "U", vec![])];
    assert_eq!(padding_for(&leaf("Display"), &params), 3);
    assert_eq!(padding_for(&leaf("_T123"), &params), 5);
    assert_eq!(padding_for(&leaf("Display"), &vec![]), 0);
}
