//! What holds of every expansion.

use vstd::prelude::*;
use crate::bounds::{all_without_bounds, has_inline_bounds, without_bounds};
use crate::error::{Anchor, Diagnostic, ErrorKind};
use crate::expand::{
    artifact_of, binding_params, declared_subject, expansion, introduced, name_padding,
    rewritten_subject, strip_parens, violation, ArtifactView,
};
use crate::scope::{
    has_marker, marked_len, marker_at, widest, widest_first, widest_name, written, written_any,
};
use crate::find::{mentions, promoted, retained, uses};
use crate::function::FunctionItemView;
use crate::generics::{distinct_names, GenericParamView, ParamKind};
use crate::rewrite::{decimal, digit, fresh_name, rewrite, rewrite_first};
use crate::types::TypeTree;

verus! {

/// How many parameters of `ps` have this kind and this name.
pub open spec fn occurrences(ps: Seq<GenericParamView>, kind: ParamKind, name: Seq<char>) -> nat
    decreases ps.len(),
{
    if ps.len() == 0 {
        0
    } else {
        occurrences(ps.drop_last(), kind, name) + if ps.last().kind == kind && ps.last().name
            == name {
            1nat
        } else {
            0nat
        }
    }
}

/// Counting over two lists in a row is counting over each.
pub proof fn lemma_occurrences_concat(
    a: Seq<GenericParamView>,
    b: Seq<GenericParamView>,
    kind: ParamKind,
    name: Seq<char>,
)
    ensures
        occurrences(a + b, kind, name) == occurrences(a, kind, name) + occurrences(b, kind, name),
    decreases b.len(),
{
    if b.len() == 0 {
        assert(a + b =~= a);
    } else {
        assert((a + b).drop_last() =~= a + b.drop_last());
        assert((a + b).last() == b.last());
        lemma_occurrences_concat(a, b.drop_last(), kind, name);
    }
}

/// Taking the bounds off changes no count.
pub proof fn lemma_occurrences_without_bounds(
    ps: Seq<GenericParamView>,
    kind: ParamKind,
    name: Seq<char>,
)
    ensures
        occurrences(all_without_bounds(ps), kind, name) == occurrences(ps, kind, name),
    decreases ps.len(),
{
    if ps.len() > 0 {
        assert(all_without_bounds(ps).drop_last() =~= all_without_bounds(ps.drop_last()));
        assert(all_without_bounds(ps).last() == without_bounds(ps.last()));
        lemma_occurrences_without_bounds(ps.drop_last(), kind, name);
    }
}

/// The partition of a parameter list by a type is total and disjoint: a
/// parameter that the type refers to is counted among the promoted as often
/// as in the list and never among the retained; any other is counted among
/// the retained as often as in the list and never among the promoted.
pub proof fn law_partition(
    t: TypeTree,
    ps: Seq<GenericParamView>,
    kind: ParamKind,
    name: Seq<char>,
)
    ensures
        mentions(t, kind, name) ==> occurrences(promoted(t, ps), kind, name) == occurrences(
            ps,
            kind,
            name,
        ) && occurrences(retained(t, ps), kind, name) == 0,
        !mentions(t, kind, name) ==> occurrences(retained(t, ps), kind, name) == occurrences(
            ps,
            kind,
            name,
        ) && occurrences(promoted(t, ps), kind, name) == 0,
    decreases ps.len(),
{
    reveal(Seq::filter);
    if ps.len() > 0 {
        law_partition(t, ps.drop_last(), kind, name);
        let wanted = |p: GenericParamView| uses(t, p);
        let unwanted = |p: GenericParamView| !uses(t, p);
        let last = ps.last();
        if uses(t, last) {
            assert(promoted(t, ps) == promoted(t, ps.drop_last()).push(last));
            assert(promoted(t, ps).drop_last() =~= promoted(t, ps.drop_last()));
            assert(retained(t, ps) == retained(t, ps.drop_last()));
        } else {
            assert(retained(t, ps) == retained(t, ps.drop_last()).push(last));
            assert(retained(t, ps).drop_last() =~= retained(t, ps.drop_last()));
            assert(promoted(t, ps) == promoted(t, ps.drop_last()));
        }
    }
}

/// A generic parameter that the subject type refers to stands exactly once
/// among the parameters of the binding, and not at all among those of the
/// method, neither in the interface nor in the binding.
///
/// This is said of a parameter that the function declares once.
pub proof fn law_promoted_once(attr: Seq<char>, f: FunctionItemView, i: int)
    requires
        violation(attr, f).is_none(),
        0 <= i < f.sig.generics.params.len(),
        uses(rewritten_subject(f), f.sig.generics.params[i]),
        occurrences(
            f.sig.generics.params,
            f.sig.generics.params[i].kind,
            f.sig.generics.params[i].name,
        ) == 1,
    ensures
        expansion(attr, f) == Ok::<ArtifactView, Diagnostic>(artifact_of(f)),
        occurrences(
            artifact_of(f).binding.generics,
            f.sig.generics.params[i].kind,
            f.sig.generics.params[i].name,
        ) == 1,
        occurrences(
            artifact_of(f).interface.method.generics.params,
            f.sig.generics.params[i].kind,
            f.sig.generics.params[i].name,
        ) == 0,
        occurrences(
            artifact_of(f).binding.method.sig.generics.params,
            f.sig.generics.params[i].kind,
            f.sig.generics.params[i].name,
        ) == 0,
{
    let p = f.sig.generics.params[i];
    let subject = rewritten_subject(f);
    let pad = name_padding(f);
    lemma_widest_name(f.sig.generics.params, f.sig.generics.params.len(), i);
    law_rewrite_names_every_existential(declared_subject(f), 0, pad);
    lemma_not_introduced(introduced(f), 0, pad, p.kind, p.name);
    law_partition(subject, f.sig.generics.params, p.kind, p.name);
    lemma_occurrences_concat(
        introduced(f),
        promoted(subject, f.sig.generics.params),
        p.kind,
        p.name,
    );
    lemma_occurrences_without_bounds(binding_params(f), p.kind, p.name);
}

/// A generic parameter that the subject type does not refer to stays on the
/// method as often as the function declares it.
pub proof fn law_retained_on_method(attr: Seq<char>, f: FunctionItemView, i: int)
    requires
        violation(attr, f).is_none(),
        0 <= i < f.sig.generics.params.len(),
        !uses(rewritten_subject(f), f.sig.generics.params[i]),
    ensures
        occurrences(
            artifact_of(f).interface.method.generics.params,
            f.sig.generics.params[i].kind,
            f.sig.generics.params[i].name,
        ) == occurrences(
            f.sig.generics.params,
            f.sig.generics.params[i].kind,
            f.sig.generics.params[i].name,
        ),
        occurrences(
            artifact_of(f).binding.generics,
            f.sig.generics.params[i].kind,
            f.sig.generics.params[i].name,
        ) == occurrences(
            introduced(f),
            f.sig.generics.params[i].kind,
            f.sig.generics.params[i].name,
        ),
{
    let p = f.sig.generics.params[i];
    let subject = rewritten_subject(f);
    law_partition(subject, f.sig.generics.params, p.kind, p.name);
    lemma_occurrences_concat(
        introduced(f),
        promoted(subject, f.sig.generics.params),
        p.kind,
        p.name,
    );
    lemma_occurrences_without_bounds(binding_params(f), p.kind, p.name);
}

/// A function without parameters is refused for its missing subject, at the
/// parameter list, when the annotation has no argument.
pub proof fn law_no_parameter(attr: Seq<char>, f: FunctionItemView)
    requires
        attr.len() == 0,
        f.sig.inputs.len() == 0,
    ensures
        expansion(attr, f) == Err::<ArtifactView, Diagnostic>(
            Diagnostic { kind: ErrorKind::MissingSubjectParameter, anchor: Anchor::ParameterList },
        ),
{
}

/// A function whose first parameter is an ordinary one is refused for an
/// invalid subject, at that parameter, when the annotation has no argument.
pub proof fn law_ordinary_first_parameter(attr: Seq<char>, f: FunctionItemView)
    requires
        attr.len() == 0,
        f.sig.inputs.len() > 0,
        f.sig.inputs[0] is Ordinary,
    ensures
        expansion(attr, f) == Err::<ArtifactView, Diagnostic>(
            Diagnostic {
                kind: ErrorKind::InvalidSubjectParameter,
                anchor: Anchor::Parameter { index: 0 },
            },
        ),
{
}

/// Whether no existential is written anywhere in `t`.
pub open spec fn free_of_existentials(t: TypeTree) -> bool
    decreases t,
{
    match t {
        TypeTree::Path { name, args } => all_free_of_existentials(args),
        TypeTree::Reference { scope, mutable, inner } => free_of_existentials(*inner),
        TypeTree::Parenthesized { inner } => free_of_existentials(*inner),
        TypeTree::Array { elem, len } => free_of_existentials(*elem),
        TypeTree::Tuple { elems } => all_free_of_existentials(elems),
        TypeTree::FunctionPointer { inputs, output } => all_free_of_existentials(inputs)
            && free_of_existentials(*output),
        TypeTree::DynamicCapability { bounds } => all_free_of_existentials(bounds),
        TypeTree::AnonymousExistential { bounds } => false,
        TypeTree::ScopeTag { name } => true,
        TypeTree::Member { base, name, args } => free_of_existentials(*base)
            && all_free_of_existentials(args),
        TypeTree::Verbatim { text, parts } => all_free_of_existentials(parts),
    }
}

/// Whether no existential is written anywhere in any of `ts`.
pub open spec fn all_free_of_existentials(ts: Seq<TypeTree>) -> bool
    decreases ts,
{
    forall|i: int| 0 <= i < ts.len() ==> free_of_existentials(#[trigger] ts[i])
}

/// Whether `fresh` are type parameters named in sequence after `used` names:
/// the first is number `used + 1`, the next `used + 2`, and so on, and no
/// bound of theirs holds an existential.
pub open spec fn named_in_sequence(fresh: Seq<GenericParamView>, used: nat, pad: nat) -> bool {
    forall|j: int|
        0 <= j < fresh.len() ==> {
            let p = #[trigger] fresh[j];
            &&& p.kind == ParamKind::Type
            &&& p.name == fresh_name(pad, (used + j + 1) as nat)
            &&& p.const_type.is_none()
            &&& all_free_of_existentials(p.bounds)
        }
}

/// The rewrite of a type leaves no existential, neither in the type nor in
/// the bounds of the parameters it introduces, and it names those parameters
/// in sequence.
pub proof fn law_rewrite_names_every_existential(t: TypeTree, used: nat, pad: nat)
    ensures
        free_of_existentials(rewrite(t, used, pad).tree),
        named_in_sequence(rewrite(t, used, pad).fresh, used, pad),
    decreases t, 0nat,
{
    match t {
        TypeTree::Path { name, args } => {
            lemma_rewrite_first(args, args.len(), used, pad);
        },
        TypeTree::Reference { scope, mutable, inner } => {
            law_rewrite_names_every_existential(*inner, used, pad);
        },
        TypeTree::Parenthesized { inner } => {
            law_rewrite_names_every_existential(*inner, used, pad);
        },
        TypeTree::Array { elem, len } => {
            law_rewrite_names_every_existential(*elem, used, pad);
        },
        TypeTree::Tuple { elems } => {
            lemma_rewrite_first(elems, elems.len(), used, pad);
        },
        TypeTree::FunctionPointer { inputs, output } => {
            lemma_rewrite_first(inputs, inputs.len(), used, pad);
            let a = rewrite_first(inputs, inputs.len(), used, pad);
            law_rewrite_names_every_existential(*output, used + a.fresh.len(), pad);
        },
        TypeTree::DynamicCapability { bounds } => {
            lemma_rewrite_first(bounds, bounds.len(), used, pad);
        },
        TypeTree::AnonymousExistential { bounds } => {
            lemma_rewrite_first(bounds, bounds.len(), used, pad);
            assert(all_free_of_existentials(Seq::<TypeTree>::empty()));
        },
        TypeTree::Member { base, name, args } => {
            law_rewrite_names_every_existential(*base, used, pad);
            let a = rewrite(*base, used, pad);
            lemma_rewrite_first(args, args.len(), used + a.fresh.len(), pad);
        },
        TypeTree::Verbatim { text, parts } => {
            lemma_rewrite_first(parts, parts.len(), used, pad);
        },
        TypeTree::ScopeTag { name } => {},
    }
}

/// The same of the rewrite of the first `k` types of a list.
pub proof fn lemma_rewrite_first(ts: Seq<TypeTree>, k: nat, used: nat, pad: nat)
    requires
        k <= ts.len(),
    ensures
        rewrite_first(ts, k, used, pad).trees.len() == k,
        all_free_of_existentials(rewrite_first(ts, k, used, pad).trees),
        named_in_sequence(rewrite_first(ts, k, used, pad).fresh, used, pad),
    decreases ts, k,
{
    if k > 0 {
        lemma_rewrite_first(ts, (k - 1) as nat, used, pad);
        let head = rewrite_first(ts, (k - 1) as nat, used, pad);
        law_rewrite_names_every_existential(ts[k - 1], used + head.fresh.len(), pad);
    }
}

/// An introduced name is no text that holds `_T` in at most as many
/// characters as the name has zeros, and no text without `_T`.
pub proof fn lemma_fresh_name_is_new(pad: nat, n: nat, s: Seq<char>)
    requires
        marked_len(s) <= pad,
    ensures
        fresh_name(pad, n) != s,
{
    let name = fresh_name(pad, n);
    lemma_decimal_has_digits(n);
    assert(name.len() == 2 + pad + decimal(n).len());
    assert(marker_at(name, 0));
    if name == s {
        assert(has_marker(s));
    }
}

/// The longest marked name among the parameters is no shorter than any.
pub proof fn lemma_widest_name(ps: Seq<GenericParamView>, k: nat, i: int)
    requires
        0 <= i < k <= ps.len(),
    ensures
        marked_len(ps[i].name) <= widest_name(ps, k),
    decreases k,
{
    if i < k - 1 {
        lemma_widest_name(ps, (k - 1) as nat, i);
    }
}

/// Parameters named in sequence hold no parameter of a name that is no
/// introduced name.
pub proof fn lemma_not_introduced(
    fresh: Seq<GenericParamView>,
    used: nat,
    pad: nat,
    kind: ParamKind,
    name: Seq<char>,
)
    requires
        named_in_sequence(fresh, used, pad),
        marked_len(name) <= pad,
    ensures
        occurrences(fresh, kind, name) == 0,
    decreases fresh.len(),
{
    if fresh.len() > 0 {
        let last = fresh.len() - 1;
        assert(fresh[last].name == fresh_name(pad, (used + last + 1) as nat));
        lemma_fresh_name_is_new(pad, (used + last + 1) as nat, name);
        assert forall|j: int| 0 <= j < fresh.drop_last().len() implies {
            let p = #[trigger] fresh.drop_last()[j];
            &&& p.kind == ParamKind::Type
            &&& p.name == fresh_name(pad, (used + j + 1) as nat)
            &&& p.const_type.is_none()
            &&& all_free_of_existentials(p.bounds)
        } by {
            assert(fresh.drop_last()[j] == fresh[j]);
        }
        lemma_not_introduced(fresh.drop_last(), used, pad, kind, name);
    }
}

/// No parameter introduced by an expansion has the name of a generic
/// parameter of the function.
pub proof fn law_introduced_names_are_new(attr: Seq<char>, f: FunctionItemView, i: int, j: int)
    requires
        violation(attr, f).is_none(),
        0 <= i < f.sig.generics.params.len(),
        0 <= j < introduced(f).len(),
    ensures
        introduced(f)[j].name != f.sig.generics.params[i].name,
        occurrences(
            introduced(f),
            f.sig.generics.params[i].kind,
            f.sig.generics.params[i].name,
        ) == 0,
{
    let ps = f.sig.generics.params;
    let pad = name_padding(f);
    lemma_widest_name(ps, ps.len(), i);
    law_rewrite_names_every_existential(declared_subject(f), 0, pad);
    assert(introduced(f)[j].name == fresh_name(pad, (0 + j + 1) as nat));
    lemma_fresh_name_is_new(pad, (j + 1) as nat, ps[i].name);
    lemma_not_introduced(introduced(f), 0, pad, ps[i].kind, ps[i].name);
}

/// A type without existentials is its own rewrite, and no parameter is
/// introduced for it.
pub proof fn law_rewrite_keeps_other_types(t: TypeTree, used: nat, pad: nat)
    requires
        free_of_existentials(t),
    ensures
        rewrite(t, used, pad).tree == t,
        rewrite(t, used, pad).fresh == Seq::<GenericParamView>::empty(),
    decreases t, 0nat,
{
    match t {
        TypeTree::Path { name, args } => {
            lemma_rewrite_first_keeps(args, args.len(), used, pad);
            assert(args.take(args.len() as int) =~= args);
        },
        TypeTree::Reference { scope, mutable, inner } => {
            law_rewrite_keeps_other_types(*inner, used, pad);
        },
        TypeTree::Parenthesized { inner } => {
            law_rewrite_keeps_other_types(*inner, used, pad);
        },
        TypeTree::Array { elem, len } => {
            law_rewrite_keeps_other_types(*elem, used, pad);
        },
        TypeTree::Tuple { elems } => {
            lemma_rewrite_first_keeps(elems, elems.len(), used, pad);
            assert(elems.take(elems.len() as int) =~= elems);
        },
        TypeTree::FunctionPointer { inputs, output } => {
            lemma_rewrite_first_keeps(inputs, inputs.len(), used, pad);
            assert(inputs.take(inputs.len() as int) =~= inputs);
            law_rewrite_keeps_other_types(*output, used, pad);
            assert(Seq::<GenericParamView>::empty() + Seq::<GenericParamView>::empty()
                =~= Seq::<GenericParamView>::empty());
        },
        TypeTree::DynamicCapability { bounds } => {
            lemma_rewrite_first_keeps(bounds, bounds.len(), used, pad);
            assert(bounds.take(bounds.len() as int) =~= bounds);
        },
        TypeTree::AnonymousExistential { bounds } => {},
        TypeTree::Member { base, name, args } => {
            law_rewrite_keeps_other_types(*base, used, pad);
            lemma_rewrite_first_keeps(args, args.len(), used, pad);
            assert(args.take(args.len() as int) =~= args);
            assert(Seq::<GenericParamView>::empty() + Seq::<GenericParamView>::empty()
                =~= Seq::<GenericParamView>::empty());
        },
        TypeTree::Verbatim { text, parts } => {
            lemma_rewrite_first_keeps(parts, parts.len(), used, pad);
            assert(parts.take(parts.len() as int) =~= parts);
        },
        TypeTree::ScopeTag { name } => {},
    }
}

/// The same of the first `k` types of a list without existentials.
pub proof fn lemma_rewrite_first_keeps(ts: Seq<TypeTree>, k: nat, used: nat, pad: nat)
    requires
        k <= ts.len(),
        all_free_of_existentials(ts),
    ensures
        rewrite_first(ts, k, used, pad).trees == ts.take(k as int),
        rewrite_first(ts, k, used, pad).fresh == Seq::<GenericParamView>::empty(),
    decreases ts, k,
{
    if k > 0 {
        lemma_rewrite_first_keeps(ts, (k - 1) as nat, used, pad);
        law_rewrite_keeps_other_types(ts[k - 1], used, pad);
        assert(ts.take(k - 1).push(ts[k - 1]) =~= ts.take(k as int));
        assert(Seq::<GenericParamView>::empty() + Seq::<GenericParamView>::empty()
            =~= Seq::<GenericParamView>::empty());
    } else {
        assert(ts.take(0) =~= Seq::<TypeTree>::empty());
    }
}

/// After an expansion no parameter of the binding carries bounds of its own,
/// and so none that the interface declares again: the bounds stand in the
/// constraint clause.
pub proof fn law_binding_parameters_are_bare(attr: Seq<char>, f: FunctionItemView, j: int)
    requires
        violation(attr, f).is_none(),
        0 <= j < artifact_of(f).binding.generics.len(),
    ensures
        artifact_of(f).interface.generics == artifact_of(f).binding.generics,
        !has_inline_bounds(artifact_of(f).binding.generics[j]),
{
}

/// The subject type of a binding is never written in round brackets.
pub proof fn law_subject_is_unwrapped(t: TypeTree)
    ensures
        !(strip_parens(t) is Parenthesized),
    decreases t,
{
    match t {
        TypeTree::Parenthesized { inner } => {
            law_subject_is_unwrapped(*inner);
        },
        _ => {},
    }
}

/// Taking the round brackets off a type without existentials leaves a type
/// without existentials.
pub proof fn lemma_strip_parens_keeps_free(t: TypeTree)
    requires
        free_of_existentials(t),
    ensures
        free_of_existentials(strip_parens(t)),
    decreases t,
{
    match t {
        TypeTree::Parenthesized { inner } => {
            lemma_strip_parens_keeps_free(*inner);
        },
        _ => {},
    }
}

/// The subject type of a binding holds no existential, and the parameters
/// introduced for the existentials of the declared type are named in
/// sequence from the first name on.
pub proof fn law_binding_subject_is_named(attr: Seq<char>, f: FunctionItemView)
    requires
        violation(attr, f).is_none(),
    ensures
        free_of_existentials(artifact_of(f).binding.subject),
        named_in_sequence(introduced(f), 0, name_padding(f)),
{
    law_rewrite_names_every_existential(declared_subject(f), 0, name_padding(f));
    lemma_strip_parens_keeps_free(rewritten_subject(f));
}

/// How many existentials are written in `t`.
pub open spec fn existentials_in(t: TypeTree) -> nat
    decreases t, 0nat,
{
    match t {
        TypeTree::Path { name, args } => existentials_in_first(args, args.len()),
        TypeTree::Reference { scope, mutable, inner } => existentials_in(*inner),
        TypeTree::Parenthesized { inner } => existentials_in(*inner),
        TypeTree::Array { elem, len } => existentials_in(*elem),
        TypeTree::Tuple { elems } => existentials_in_first(elems, elems.len()),
        TypeTree::FunctionPointer { inputs, output } => existentials_in_first(
            inputs,
            inputs.len(),
        ) + existentials_in(*output),
        TypeTree::DynamicCapability { bounds } => existentials_in_first(bounds, bounds.len()),
        TypeTree::AnonymousExistential { bounds } => existentials_in_first(bounds, bounds.len())
            + 1,
        TypeTree::ScopeTag { name } => 0,
        TypeTree::Member { base, name, args } => existentials_in(*base) + existentials_in_first(
            args,
            args.len(),
        ),
        TypeTree::Verbatim { text, parts } => existentials_in_first(parts, parts.len()),
    }
}

/// How many existentials are written in the first `k` of `ts`.
pub open spec fn existentials_in_first(ts: Seq<TypeTree>, k: nat) -> nat
    decreases ts, k,
{
    if k == 0 || k > ts.len() {
        0
    } else {
        existentials_in_first(ts, (k - 1) as nat) + existentials_in(ts[k - 1])
    }
}

/// A rewrite introduces one parameter for each existential, whatever the
/// number of names given out before.
pub proof fn law_one_parameter_for_each_existential(t: TypeTree, used: nat, pad: nat)
    ensures
        rewrite(t, used, pad).fresh.len() == existentials_in(t),
    decreases t, 0nat,
{
    match t {
        TypeTree::Path { name, args } => {
            lemma_one_parameter_in_first(args, args.len(), used, pad);
        },
        TypeTree::Reference { scope, mutable, inner } => {
            law_one_parameter_for_each_existential(*inner, used, pad);
        },
        TypeTree::Parenthesized { inner } => {
            law_one_parameter_for_each_existential(*inner, used, pad);
        },
        TypeTree::Array { elem, len } => {
            law_one_parameter_for_each_existential(*elem, used, pad);
        },
        TypeTree::Tuple { elems } => {
            lemma_one_parameter_in_first(elems, elems.len(), used, pad);
        },
        TypeTree::FunctionPointer { inputs, output } => {
            lemma_one_parameter_in_first(inputs, inputs.len(), used, pad);
            let a = rewrite_first(inputs, inputs.len(), used, pad);
            law_one_parameter_for_each_existential(*output, used + a.fresh.len(), pad);
        },
        TypeTree::DynamicCapability { bounds } => {
            lemma_one_parameter_in_first(bounds, bounds.len(), used, pad);
        },
        TypeTree::AnonymousExistential { bounds } => {
            lemma_one_parameter_in_first(bounds, bounds.len(), used, pad);
        },
        TypeTree::Member { base, name, args } => {
            law_one_parameter_for_each_existential(*base, used, pad);
            let a = rewrite(*base, used, pad);
            lemma_one_parameter_in_first(args, args.len(), used + a.fresh.len(), pad);
        },
        TypeTree::Verbatim { text, parts } => {
            lemma_one_parameter_in_first(parts, parts.len(), used, pad);
        },
        TypeTree::ScopeTag { name } => {},
    }
}

/// The same of the first `k` types of a list.
pub proof fn lemma_one_parameter_in_first(ts: Seq<TypeTree>, k: nat, used: nat, pad: nat)
    requires
        k <= ts.len(),
    ensures
        rewrite_first(ts, k, used, pad).fresh.len() == existentials_in_first(ts, k),
    decreases ts, k,
{
    if k > 0 {
        lemma_one_parameter_in_first(ts, (k - 1) as nat, used, pad);
        let head = rewrite_first(ts, (k - 1) as nat, used, pad);
        law_one_parameter_for_each_existential(ts[k - 1], used + head.fresh.len(), pad);
    }
}

/// Every number has at least one digit.
pub proof fn lemma_decimal_has_digits(n: nat)
    ensures
        decimal(n).len() >= 1,
    decreases n,
{
    if n >= 10 {
        lemma_decimal_has_digits(n / 10);
    }
}

/// Two numbers that are written alike are the same number.
pub proof fn lemma_decimal_is_injective(a: nat, b: nat)
    requires
        decimal(a) == decimal(b),
    ensures
        a == b,
    decreases a,
{
    if a < 10 && b < 10 {
        assert(decimal(a)[0] == digit(a));
        assert(decimal(b)[0] == digit(b));
    } else if a < 10 {
        lemma_decimal_has_digits(b / 10);
    } else if b < 10 {
        lemma_decimal_has_digits(a / 10);
    } else {
        let head_a = decimal(a / 10);
        let head_b = decimal(b / 10);
        assert(decimal(a) == head_a.push(digit(a % 10)));
        assert(decimal(b) == head_b.push(digit(b % 10)));
        assert(decimal(a).drop_last() =~= head_a);
        assert(decimal(b).drop_last() =~= head_b);
        assert(decimal(a).last() == digit(a % 10));
        assert(decimal(b).last() == digit(b % 10));
        lemma_decimal_is_injective(a / 10, b / 10);
        assert(a % 10 == b % 10);
    }
}

/// Two introduced names with the same padding are the same only for the
/// same number.
pub proof fn lemma_fresh_name_is_injective(pad: nat, a: nat, b: nat)
    requires
        fresh_name(pad, a) == fresh_name(pad, b),
    ensures
        a == b,
{
    let start = (2 + pad) as int;
    let name_a = fresh_name(pad, a);
    let name_b = fresh_name(pad, b);
    assert(name_a.subrange(start, name_a.len() as int) =~= decimal(a));
    assert(name_b.subrange(start, name_b.len() as int) =~= decimal(b));
    lemma_decimal_is_injective(a, b);
}

/// What is kept of a list without two parameters of one kind and name has
/// no two such parameters.
pub proof fn lemma_filter_keeps_distinct(
    ps: Seq<GenericParamView>,
    pred: spec_fn(GenericParamView) -> bool,
)
    requires
        distinct_names(ps),
    ensures
        distinct_names(ps.filter(pred)),
    decreases ps.len(),
{
    reveal(Seq::filter);
    if ps.len() > 0 {
        let init = ps.drop_last();
        assert(distinct_names(init)) by {
            assert forall|i: int, j: int| 0 <= i < j < init.len() implies !(init[i].kind
                == init[j].kind && init[i].name == init[j].name) by {
                assert(init[i] == ps[i] && init[j] == ps[j]);
            }
        }
        lemma_filter_keeps_distinct(init, pred);
        let kept = init.filter(pred);
        if pred(ps.last()) {
            let q = ps.filter(pred);
            assert(q == kept.push(ps.last()));
            assert forall|i: int, j: int| 0 <= i < j < q.len() implies !(q[i].kind == q[j].kind
                && q[i].name == q[j].name) by {
                if j < kept.len() {
                    assert(q[i] == kept[i] && q[j] == kept[j]);
                } else {
                    assert(kept.contains(kept[i]));
                    init.lemma_filter_contains_rev(pred, kept[i]);
                    let k = choose|k: int| 0 <= k < init.len() && init[k] == kept[i];
                    assert(ps[k] == q[i]);
                    assert(ps[ps.len() - 1] == q[j]);
                }
            }
        }
    }
}

/// Where no two generic parameters of the function have the same kind and
/// name, no two parameters of the binding have: the introduced names differ
/// from one another and from every name that the function declares.
pub proof fn law_binding_names_are_distinct(attr: Seq<char>, f: FunctionItemView)
    requires
        violation(attr, f).is_none(),
        distinct_names(f.sig.generics.params),
    ensures
        distinct_names(artifact_of(f).binding.generics),
        distinct_names(artifact_of(f).interface.generics),
{
    let ps = f.sig.generics.params;
    let pad = name_padding(f);
    let fresh = introduced(f);
    let wanted = |p: GenericParamView| uses(rewritten_subject(f), p);
    let kept = ps.filter(wanted);
    let all = binding_params(f);
    let bare = artifact_of(f).binding.generics;
    law_rewrite_names_every_existential(declared_subject(f), 0, pad);
    lemma_filter_keeps_distinct(ps, wanted);
    assert(all == fresh + kept);
    assert forall|i: int, j: int| 0 <= i < j < bare.len() implies !(bare[i].kind == bare[j].kind
        && bare[i].name == bare[j].name) by {
        assert(bare[i].kind == all[i].kind && bare[i].name == all[i].name);
        assert(bare[j].kind == all[j].kind && bare[j].name == all[j].name);
        if j < fresh.len() {
            assert(all[i] == fresh[i] && all[j] == fresh[j]);
            if fresh[i].name == fresh[j].name {
                lemma_fresh_name_is_injective(pad, (i + 1) as nat, (j + 1) as nat);
            }
        } else if i < fresh.len() {
            let other = kept[j - fresh.len()];
            assert(all[i] == fresh[i] && all[j] == other);
            assert(kept.contains(other));
            ps.lemma_filter_contains_rev(wanted, other);
            let k = choose|k: int| 0 <= k < ps.len() && ps[k] == other;
            lemma_widest_name(ps, ps.len(), k);
            lemma_fresh_name_is_new(pad, (i + 1) as nat, other.name);
        } else {
            assert(all[i] == kept[i - fresh.len()] && all[j] == kept[j - fresh.len()]);
        }
    }
}

/// The longest marked text in the first `k` types is no shorter than that
/// in any of them.
pub proof fn lemma_widest_first_covers(ts: Seq<TypeTree>, k: nat, i: int)
    requires
        0 <= i < k <= ts.len(),
    ensures
        widest(ts[i]) <= widest_first(ts, k),
    decreases k,
{
    if i < k - 1 {
        lemma_widest_first_covers(ts, (k - 1) as nat, i);
    }
}

/// A text written in a type that holds `_T` is no longer than the longest
/// such text in the type.
pub proof fn lemma_written_is_covered(t: TypeTree, s: Seq<char>)
    requires
        written(t, s),
    ensures
        marked_len(s) <= widest(t),
    decreases t, 1nat,
{
    match t {
        TypeTree::Path { name, args } => {
            if name != s {
                lemma_written_any_is_covered(args, s);
            }
        },
        TypeTree::Member { base, name, args } => {
            if name != s {
                if written(*base, s) {
                    lemma_written_is_covered(*base, s);
                } else {
                    lemma_written_any_is_covered(args, s);
                }
            }
        },
        TypeTree::Reference { scope, mutable, inner } => {
            if scope != Some(s) {
                lemma_written_is_covered(*inner, s);
            }
        },
        TypeTree::Parenthesized { inner } => {
            lemma_written_is_covered(*inner, s);
        },
        TypeTree::Array { elem, len } => {
            if len != s {
                lemma_written_is_covered(*elem, s);
            }
        },
        TypeTree::Tuple { elems } => {
            lemma_written_any_is_covered(elems, s);
        },
        TypeTree::FunctionPointer { inputs, output } => {
            if written_any(inputs, s) {
                lemma_written_any_is_covered(inputs, s);
            } else {
                lemma_written_is_covered(*output, s);
            }
        },
        TypeTree::DynamicCapability { bounds } => {
            lemma_written_any_is_covered(bounds, s);
        },
        TypeTree::AnonymousExistential { bounds } => {
            lemma_written_any_is_covered(bounds, s);
        },
        TypeTree::ScopeTag { name } => {},
        TypeTree::Verbatim { text, parts } => {
            if text != s {
                lemma_written_any_is_covered(parts, s);
            }
        },
    }
}

/// The same of a text written in one of a list of types.
pub proof fn lemma_written_any_is_covered(ts: Seq<TypeTree>, s: Seq<char>)
    requires
        written_any(ts, s),
    ensures
        marked_len(s) <= widest_first(ts, ts.len()),
    decreases ts, 0nat,
{
    let i = choose|i: int| 0 <= i < ts.len() && written(#[trigger] ts[i], s);
    lemma_written_is_covered(ts[i], s);
    lemma_widest_first_covers(ts, ts.len(), i);
}

/// No parameter introduced by an expansion has a name that is written in
/// the declared subject type.
pub proof fn law_introduced_names_are_not_written(
    attr: Seq<char>,
    f: FunctionItemView,
    j: int,
    s: Seq<char>,
)
    requires
        violation(attr, f).is_none(),
        0 <= j < introduced(f).len(),
        written(declared_subject(f), s),
    ensures
        introduced(f)[j].name != s,
{
    let pad = name_padding(f);
    lemma_written_is_covered(declared_subject(f), s);
    law_rewrite_names_every_existential(declared_subject(f), 0, pad);
    assert(introduced(f)[j].name == fresh_name(pad, (0 + j + 1) as nat));
    lemma_fresh_name_is_new(pad, (j + 1) as nat, s);
}

} // verus!
