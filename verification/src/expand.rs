//! The expansion: from one function to an interface and its binding.

use vstd::prelude::*;
use vstd::string::StringExecFns;
use crate::bounds::{
    all_without_bounds, move_bounds_to_where_clause, moved_predicates, predicates_in,
};
use crate::error::{Anchor, Diagnostic, ErrorKind};
use crate::find::{extract_impl_generics, promoted, retained};
use crate::function::{
    attributes_of, copy_attributes, inputs_of, Attribute, AttributeForm, AttributeView, FunctionItem,
    FunctionItemView, OrdinaryParam, OrdinaryParamView, Param, ParamView, Signature,
    SignatureView, SubjectParam, SubjectParamView, Visibility, VisibilityView,
};
use crate::generics::{
    copy_opt_type, copy_params, distinct_names, params_of, GenericParam, GenericParamView,
    Generics, GenericsView,
};
use crate::laws::law_binding_names_are_distinct;
use crate::rewrite::{rewrite, ImplTraitsIntoGenerics};
use crate::scope::{padding, padding_for};
use crate::types::{copy_text, copy_type, text_of, tree_of, TypeExpr, TypeTree};

verus! {

/// The interface that declares the one method.
#[derive(Debug, Clone, PartialEq, Eq)]
pub struct CapabilityInterface {
    /// The documentation of the function.
    pub docs: Vec<Attribute>,
    pub vis: Visibility,
    pub name: String,
    /// The parameters of the binding, declared again, without bounds.
    pub generics: Vec<GenericParam>,
    /// What stands above the method: the documentation and one lint allowance.
    pub method_attrs: Vec<Attribute>,
    /// The method's declaration, with no pattern left in its parameters.
    pub method: Signature,
}

/// The model of a [`CapabilityInterface`].
pub struct CapabilityInterfaceView {
    pub docs: Seq<AttributeView>,
    pub vis: VisibilityView,
    pub name: Seq<char>,
    pub generics: Seq<GenericParamView>,
    pub method_attrs: Seq<AttributeView>,
    pub method: SignatureView,
}

impl View for CapabilityInterface {
    type V = CapabilityInterfaceView;

    open spec fn view(&self) -> CapabilityInterfaceView {
        CapabilityInterfaceView {
            docs: attributes_of(self.docs@),
            vis: self.vis@,
            name: self.name@,
            generics: params_of(self.generics@),
            method_attrs: attributes_of(self.method_attrs@),
            method: self.method@,
        }
    }
}

/// The binding of the interface to the subject type.
#[derive(Debug, Clone, PartialEq, Eq)]
pub struct CapabilityBinding {
    /// The parameters that the subject type refers to, and those introduced
    /// for its existentials.
    pub generics: Vec<GenericParam>,
    /// The name of the interface that is bound.
    pub interface: String,
    /// The type that the interface is bound to.
    pub subject: TypeExpr,
    /// The function itself, with its body. Its signature holds the constraint
    /// clause of the binding.
    pub method: FunctionItem,
}

/// The model of a [`CapabilityBinding`].
pub struct CapabilityBindingView {
    pub generics: Seq<GenericParamView>,
    pub interface: Seq<char>,
    pub subject: TypeTree,
    pub method: FunctionItemView,
}

impl View for CapabilityBinding {
    type V = CapabilityBindingView;

    open spec fn view(&self) -> CapabilityBindingView {
        CapabilityBindingView {
            generics: params_of(self.generics@),
            interface: self.interface@,
            subject: tree_of(self.subject),
            method: self.method@,
        }
    }
}

/// What an expansion yields: the interface, then its binding.
#[derive(Debug, Clone, PartialEq, Eq)]
pub struct Artifact {
    pub interface: CapabilityInterface,
    pub binding: CapabilityBinding,
}

/// The model of an [`Artifact`].
pub struct ArtifactView {
    pub interface: CapabilityInterfaceView,
    pub binding: CapabilityBindingView,
}

impl View for Artifact {
    type V = ArtifactView;

    open spec fn view(&self) -> ArtifactView {
        ArtifactView { interface: self.interface@, binding: self.binding@ }
    }
}

/// What is wrong with the signature, if anything: no parameter; a first
/// parameter that is not `self`; a `self` without a declared type.
pub open spec fn signature_violation(sig: SignatureView) -> Option<Diagnostic> {
    if sig.inputs.len() == 0 {
        Some(
            Diagnostic { kind: ErrorKind::MissingSubjectParameter, anchor: Anchor::ParameterList },
        )
    } else {
        match sig.inputs[0] {
            ParamView::Ordinary(_) => Some(
                Diagnostic {
                    kind: ErrorKind::InvalidSubjectParameter,
                    anchor: Anchor::Parameter { index: 0 },
                },
            ),
            ParamView::Subject(p) => if p.by_reference || p.ty.is_none() {
                Some(
                    Diagnostic {
                        kind: ErrorKind::UntypedSubject,
                        anchor: Anchor::Parameter { index: 0 },
                    },
                )
            } else {
                None
            },
        }
    }
}

/// What is wrong with the input, if anything. Arguments to the annotation
/// are looked for first.
pub open spec fn violation(attr: Seq<char>, f: FunctionItemView) -> Option<Diagnostic> {
    if attr.len() > 0 {
        Some(
            Diagnostic {
                kind: ErrorKind::AttributeArgumentsNotAllowed,
                anchor: Anchor::AttributeArguments,
            },
        )
    } else {
        signature_violation(f.sig)
    }
}

/// The type without the round brackets around it.
pub open spec fn strip_parens(t: TypeTree) -> TypeTree
    decreases t,
{
    match t {
        TypeTree::Parenthesized { inner } => strip_parens(*inner),
        _ => t,
    }
}

/// What the declared type of `self` says: the subject type, and how the
/// subject is taken.
#[derive(Debug, Clone, PartialEq, Eq)]
pub struct Target {
    /// The declared type under its brackets and its reference.
    pub subject: TypeExpr,
    /// Whether the subject is taken by reference.
    pub by_reference: bool,
    /// The scope tag of that reference, if one is written.
    pub scope: Option<String>,
    /// Whether that reference is mutable.
    pub mutable: bool,
}

/// The model of a [`Target`].
pub struct TargetView {
    pub subject: TypeTree,
    pub by_reference: bool,
    pub scope: Option<Seq<char>>,
    pub mutable: bool,
}

impl View for Target {
    type V = TargetView;

    open spec fn view(&self) -> TargetView {
        TargetView {
            subject: tree_of(self.subject),
            by_reference: self.by_reference,
            scope: text_of(self.scope),
            mutable: self.mutable,
        }
    }
}

/// The declared type without the brackets around it and without one
/// reference under them; whether there was such a reference, and its scope
/// tag and mutability.
pub open spec fn target_of(declared: TypeTree) -> TargetView {
    match strip_parens(declared) {
        TypeTree::Reference { scope, mutable, inner } => TargetView {
            subject: *inner,
            by_reference: true,
            scope,
            mutable,
        },
        other => TargetView { subject: other, by_reference: false, scope: None, mutable: false },
    }
}

/// The plain receiver that stands for a typed `self`: it keeps the reference
/// of the declared type, or else its own `mut`, and has no type.
pub open spec fn receiver_of(p: SubjectParamView) -> SubjectParamView {
    let target = target_of(p.ty.unwrap());
    SubjectParamView {
        attrs: p.attrs,
        by_reference: target.by_reference,
        scope: target.scope,
        mutable: if target.by_reference {
            target.mutable
        } else {
            p.mutable
        },
        ty: None,
    }
}

/// The parameter as a declaration without a body writes it: a receiver by
/// value loses its `mut`, and a pattern becomes `_`. Its attributes stay.
pub open spec fn erased(p: ParamView) -> ParamView {
    match p {
        ParamView::Subject(r) => ParamView::Subject(
            SubjectParamView { mutable: r.by_reference && r.mutable, ..r },
        ),
        ParamView::Ordinary(o) => ParamView::Ordinary(
            OrdinaryParamView { attrs: o.attrs, pattern: "_"@, ty: o.ty },
        ),
    }
}

/// The signature as a declaration without a body writes it.
pub open spec fn declaration(sig: SignatureView) -> SignatureView {
    SignatureView { inputs: sig.inputs.map_values(|p: ParamView| erased(p)), ..sig }
}

/// Whether the attribute is documentation: an outer `doc = ..`.
pub open spec fn is_documentation(a: AttributeView) -> bool {
    a.outer && a.form == AttributeForm::NameValue && a.path == "doc"@
}

/// The documentation among the attributes, in order.
pub open spec fn documentation(attrs: Seq<AttributeView>) -> Seq<AttributeView> {
    attrs.filter(|a: AttributeView| is_documentation(a))
}

/// The lint allowance that stands above the declared method.
pub open spec fn lint_allowance() -> AttributeView {
    AttributeView {
        outer: true,
        form: AttributeForm::List,
        path: "allow"@,
        text: "async_fn_in_trait, unknown_lints, clippy::allow_attributes"@,
    }
}

/// The declared type of `self` under its brackets and its reference.
pub open spec fn declared_subject(f: FunctionItemView) -> TypeTree {
    target_of(f.sig.inputs[0]->Subject_0.ty.unwrap()).subject
}

/// How many zeros stand in the names introduced for `f`, so that none of
/// them is a name of its generic parameters or written in its subject type.
pub open spec fn name_padding(f: FunctionItemView) -> nat {
    padding(declared_subject(f), f.sig.generics.params)
}

/// The parameters introduced for the existentials of the subject type.
pub open spec fn introduced(f: FunctionItemView) -> Seq<GenericParamView> {
    rewrite(declared_subject(f), 0, name_padding(f)).fresh
}

/// The subject type after the rewrite of its existentials, brackets kept.
pub open spec fn rewritten_subject(f: FunctionItemView) -> TypeTree {
    rewrite(declared_subject(f), 0, name_padding(f)).tree
}

/// The parameters of the binding before their bounds move: those introduced
/// for existentials, then those of the function that the subject type refers
/// to.
pub open spec fn binding_params(f: FunctionItemView) -> Seq<GenericParamView> {
    introduced(f) + promoted(rewritten_subject(f), f.sig.generics.params)
}

/// The signature of the method in the binding: the receiver is plain, the
/// parameters that moved to the binding are gone, and the constraint clause
/// holds the bounds that the binding's parameters had.
pub open spec fn method_signature(f: FunctionItemView) -> SignatureView {
    SignatureView {
        modifiers: f.sig.modifiers,
        abi: f.sig.abi,
        name: f.sig.name,
        generics: GenericsView {
            params: retained(rewritten_subject(f), f.sig.generics.params),
            where_clause: Some(
                predicates_in(f.sig.generics.where_clause) + moved_predicates(binding_params(f)),
            ),
        },
        inputs: f.sig.inputs.update(
            0,
            ParamView::Subject(receiver_of(f.sig.inputs[0]->Subject_0)),
        ),
        variadic: f.sig.variadic,
        output: f.sig.output,
    }
}

/// The interface and the binding made of a function that has no violation.
pub open spec fn artifact_of(f: FunctionItemView) -> ArtifactView {
    ArtifactView {
        interface: CapabilityInterfaceView {
            docs: documentation(f.attrs),
            vis: f.vis,
            name: f.sig.name,
            generics: all_without_bounds(binding_params(f)),
            method_attrs: documentation(f.attrs).push(lint_allowance()),
            method: declaration(method_signature(f)),
        },
        binding: CapabilityBindingView {
            generics: all_without_bounds(binding_params(f)),
            interface: f.sig.name,
            subject: strip_parens(rewritten_subject(f)),
            method: FunctionItemView {
                attrs: f.attrs,
                vis: VisibilityView::Inherited,
                sig: method_signature(f),
                body: f.body,
            },
        },
    }
}

/// What the expansion of `f` under the annotation's arguments `attr` is.
pub open spec fn expansion(attr: Seq<char>, f: FunctionItemView) -> Result<
    ArtifactView,
    Diagnostic,
> {
    match violation(attr, f) {
        Some(d) => Err(d),
        None => Ok(artifact_of(f)),
    }
}

/// Checks the signature and hands out its `self` parameter.
pub fn validate(sig: &Signature) -> (out: Result<&SubjectParam, Diagnostic>)
    ensures
        match out {
            Ok(p) => signature_violation(sig@).is_none() && sig.inputs@[0] == Param::Subject(*p),
            Err(d) => signature_violation(sig@) == Some(d),
        },
{
    if sig.inputs.len() == 0 {
        return Err(
            Diagnostic { kind: ErrorKind::MissingSubjectParameter, anchor: Anchor::ParameterList },
        );
    }
    assert(inputs_of(sig.inputs@)[0] == sig.inputs@[0]@);
    match &sig.inputs[0] {
        Param::Ordinary(_) => Err(
            Diagnostic {
                kind: ErrorKind::InvalidSubjectParameter,
                anchor: Anchor::Parameter { index: 0 },
            },
        ),
        Param::Subject(p) => {
            if p.by_reference || p.ty.is_none() {
                Err(
                    Diagnostic {
                        kind: ErrorKind::UntypedSubject,
                        anchor: Anchor::Parameter { index: 0 },
                    },
                )
            } else {
                Ok(p)
            }
        },
    }
}

/// Takes the round brackets off a type.
pub fn strip_parentheses(t: TypeExpr) -> (out: TypeExpr)
    ensures
        out@ == strip_parens(t@),
    decreases t,
{
    match t {
        TypeExpr::Parenthesized { inner } => strip_parentheses(*inner),
        other => other,
    }
}

/// Takes the subject type out of the declared type of `self`: the brackets
/// around it go, and one reference under them becomes a flag.
pub fn extract_target(declared: TypeExpr) -> (out: Target)
    ensures
        out@ == target_of(declared@),
{
    match strip_parentheses(declared) {
        TypeExpr::Reference { scope, mutable, inner } => Target {
            subject: *inner,
            by_reference: true,
            scope,
            mutable,
        },
        other => Target { subject: other, by_reference: false, scope: None, mutable: false },
    }
}

/// Makes a typed `self` a plain receiver and hands out its subject type.
pub fn simplify_self_param(self_param: &mut SubjectParam) -> (subject: TypeExpr)
    requires
        old(self_param).ty.is_some(),
    ensures
        subject@ == target_of(old(self_param)@.ty.unwrap()).subject,
        final(self_param)@ == receiver_of(old(self_param)@),
{
    let declared = self_param.ty.take().unwrap();
    let Target { subject, by_reference, scope, mutable } = extract_target(declared);
    if by_reference {
        self_param.mutable = mutable;
    }
    self_param.by_reference = by_reference;
    self_param.scope = scope;
    subject
}

/// The documentation among the attributes, copied in order.
pub fn documentation_of(attrs: &Vec<Attribute>) -> (out: Vec<Attribute>)
    ensures
        attributes_of(out@) == documentation(attributes_of(attrs@)),
{
    let ghost all = attributes_of(attrs@);
    let ghost wanted = |a: AttributeView| is_documentation(a);
    let doc = String::from_str("doc");
    let mut out: Vec<Attribute> = Vec::new();
    let mut i: usize = 0;
    assert(all.take(0) =~= Seq::empty());
    assert(attributes_of(out@) =~= Seq::empty());
    while i < attrs.len()
        invariant
            i <= attrs.len(),
            doc@ == "doc"@,
            all == attributes_of(attrs@),
            wanted == |a: AttributeView| is_documentation(a),
            attributes_of(out@) == all.take(i as int).filter(wanted),
        decreases attrs.len() - i,
    {
        let attr = &attrs[i];
        proof {
            assert(all.take(i + 1) =~= all.take(i as int).push(attr@));
            all.take(i as int).lemma_filter_push(attr@, wanted);
        }
        let is_name_value = match attr.form {
            AttributeForm::NameValue => true,
            _ => false,
        };
        if attr.outer && is_name_value && attr.path == doc {
            let copy = attr.clone();
            assert(attributes_of(out@.push(copy)) =~= attributes_of(out@).push(copy@));
            out.push(copy);
        }
        i += 1;
    }
    assert(all.take(i as int) =~= all);
    out
}

/// The signature as a declaration without a body writes it.
pub fn declaration_of(sig: &Signature) -> (out: Signature)
    ensures
        out@ == declaration(sig@),
{
    let ghost all = inputs_of(sig.inputs@);
    let mut inputs: Vec<Param> = Vec::new();
    let mut i: usize = 0;
    while i < sig.inputs.len()
        invariant
            i <= sig.inputs.len(),
            inputs.len() == i,
            forall|j: int| 0 <= j < i ==> (#[trigger] inputs[j])@ == erased(sig.inputs[j]@),
        decreases sig.inputs.len() - i,
    {
        let param = match &sig.inputs[i] {
            Param::Subject(r) => Param::Subject(
                SubjectParam {
                    attrs: copy_attributes(&r.attrs),
                    by_reference: r.by_reference,
                    scope: copy_text(&r.scope),
                    mutable: r.by_reference && r.mutable,
                    ty: copy_opt_type(&r.ty),
                },
            ),
            Param::Ordinary(o) => Param::Ordinary(
                OrdinaryParam {
                    attrs: copy_attributes(&o.attrs),
                    pattern: String::from_str("_"),
                    ty: copy_type(&o.ty),
                },
            ),
        };
        inputs.push(param);
        i += 1;
    }
    assert(inputs_of(inputs@) =~= all.map_values(|p: ParamView| erased(p)));
    Signature {
        modifiers: sig.modifiers,
        abi: copy_text(&sig.abi),
        name: sig.name.clone(),
        generics: sig.generics.clone(),
        inputs,
        variadic: copy_text(&sig.variadic),
        output: copy_opt_type(&sig.output),
    }
}

/// Expands one function into an interface and its binding.
///
/// `attr` is the text of the annotation's arguments. The expansion is
/// refused for the first violation found; else the interface and the binding
/// are those that [`artifact_of`] describes. No name introduced for an
/// existential is a name of a generic parameter of the function, so the
/// parameters of the binding differ in kind or name where those of the
/// function do.
pub fn expand(attr: &str, function: FunctionItem) -> (out: Result<Artifact, Diagnostic>)
    ensures
        match out {
            Ok(artifact) => expansion(attr@, function@) == Ok::<ArtifactView, Diagnostic>(
                artifact@,
            ),
            Err(d) => expansion(attr@, function@) == Err::<ArtifactView, Diagnostic>(d),
        },
        out is Ok && distinct_names(function@.sig.generics.params) ==> distinct_names(
            out.unwrap()@.binding.generics,
        ),
{
    proof {
        if violation(attr@, function@).is_none() && distinct_names(
            function@.sig.generics.params,
        ) {
            law_binding_names_are_distinct(attr@, function@);
        }
    }
    if !attr.is_empty() {
        return Err(
            Diagnostic {
                kind: ErrorKind::AttributeArgumentsNotAllowed,
                anchor: Anchor::AttributeArguments,
            },
        );
    }
    match validate(&function.sig) {
        Err(d) => {
            return Err(d);
        },
        Ok(_) => {},
    }
    let ghost f = function@;
    let FunctionItem { attrs, vis, sig, body } = function;
    let Signature { modifiers, abi, name, generics, mut inputs, variadic, output } = sig;
    let ghost old_inputs = inputs@;
    assert(inputs_of(old_inputs)[0] == old_inputs[0]@);
    let first = inputs.remove(0);
    let mut self_param = match first {
        Param::Subject(p) => p,
        Param::Ordinary(_) => vstd::pervasive::unreached(),
    };

    let mut self_type = simplify_self_param(&mut self_param);

    let padding = padding_for(&self_type, &generics.params);
    let mut rewriter = ImplTraitsIntoGenerics::new(Generics::default(), padding);
    rewriter.visit_type_mut(&mut self_type);
    let mut impl_generics = rewriter.into_generics();
    assert(impl_generics@.params =~= introduced(f));

    let mut fn_generics = generics;
    let mut extracted = extract_impl_generics(&self_type, &mut fn_generics);
    assert(params_of(impl_generics.params@ + extracted.params@) =~= params_of(
        impl_generics.params@,
    ) + params_of(extracted.params@));
    impl_generics.params.append(&mut extracted.params);
    assert(params_of(impl_generics.params@) == binding_params(f));

    move_bounds_to_where_clause(&mut impl_generics.params, &mut fn_generics.where_clause);

    let self_type = strip_parentheses(self_type);

    let receiver = Param::Subject(self_param);
    assert(inputs_of(old_inputs.remove(0).insert(0, receiver)) =~= inputs_of(old_inputs).update(
        0,
        receiver@,
    ));
    inputs.insert(0, receiver);
    let method_sig = Signature {
        modifiers,
        abi,
        name,
        generics: fn_generics,
        inputs,
        variadic,
        output,
    };
    assert(method_sig@ == method_signature(f));

    let declaration = declaration_of(&method_sig);
    let docs = documentation_of(&attrs);
    let mut method_attrs = documentation_of(&attrs);
    let allowance = Attribute {
        outer: true,
        form: AttributeForm::List,
        path: String::from_str("allow"),
        text: String::from_str("async_fn_in_trait, unknown_lints, clippy::allow_attributes"),
    };
    assert(attributes_of(method_attrs@.push(allowance)) =~= attributes_of(method_attrs@).push(
        allowance@,
    ));
    method_attrs.push(allowance);
    let trait_name = method_sig.name.clone();
    let interface_name = method_sig.name.clone();
    let trait_generics = copy_params(&impl_generics.params);

    Ok(
        Artifact {
            interface: CapabilityInterface {
                docs,
                vis,
                name: trait_name,
                generics: trait_generics,
                method_attrs,
                method: declaration,
            },
            binding: CapabilityBinding {
                generics: impl_generics.params,
                interface: interface_name,
                subject: self_type,
                method: FunctionItem {
                    attrs,
                    vis: Visibility::Inherited,
                    sig: method_sig,
                    body,
                },
            },
        },
    )
}

} // verus!
