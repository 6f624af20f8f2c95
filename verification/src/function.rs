//! A function as it is written: attributes, visibility, signature and body.

use vstd::prelude::*;
use crate::generics::{copy_opt_type, opt_tree_of, Generics, GenericsView};
use crate::types::{copy_text, copy_type, text_of, tree_of, TypeExpr, TypeTree};

verus! {

/// How an attribute is written after its path.
#[derive(Debug, Clone, Copy, PartialEq, Eq, Structural)]
pub enum AttributeForm {
    /// The path alone: `#[inline]`.
    Word,
    /// The path and a list in brackets: `#[allow(unused)]`.
    List,
    /// The path, `=` and a value: `#[doc = "text"]`.
    NameValue,
}

/// One attribute of a function.
#[derive(Debug, PartialEq, Eq)]
pub struct Attribute {
    /// Whether it stands before the item, not inside it.
    pub outer: bool,
    pub form: AttributeForm,
    pub path: String,
    /// What follows the path: the list or the value, as text.
    pub text: String,
}

/// The model of an [`Attribute`].
pub struct AttributeView {
    pub outer: bool,
    pub form: AttributeForm,
    pub path: Seq<char>,
    pub text: Seq<char>,
}

impl View for Attribute {
    type V = AttributeView;

    open spec fn view(&self) -> AttributeView {
        AttributeView { outer: self.outer, form: self.form, path: self.path@, text: self.text@ }
    }
}

/// The models of a list of attributes, in order.
pub open spec fn attributes_of(attrs: Seq<Attribute>) -> Seq<AttributeView> {
    Seq::new(attrs.len(), |i: int| attrs[i]@)
}

impl Clone for Attribute {
    fn clone(&self) -> (out: Self)
        ensures
            out@ == self@,
    {
        Attribute {
            outer: self.outer,
            form: self.form,
            path: self.path.clone(),
            text: self.text.clone(),
        }
    }
}

/// A copy of a list of attributes.
pub fn copy_attributes(attrs: &Vec<Attribute>) -> (out: Vec<Attribute>)
    ensures
        attributes_of(out@) == attributes_of(attrs@),
{
    let mut out: Vec<Attribute> = Vec::new();
    let mut i: usize = 0;
    while i < attrs.len()
        invariant
            i <= attrs.len(),
            out.len() == i,
            forall|j: int| 0 <= j < i ==> (#[trigger] out[j])@ == attrs[j]@,
        decreases attrs.len() - i,
    {
        out.push(attrs[i].clone());
        i += 1;
    }
    assert(attributes_of(out@) =~= attributes_of(attrs@));
    out
}

/// Who may name an item.
#[derive(Debug, Clone, PartialEq, Eq)]
pub enum Visibility {
    /// No visibility is written.
    Inherited,
    /// `pub`
    Public,
    /// `pub(scope)`, with the scope as text.
    Restricted { scope: String },
}

/// The model of a [`Visibility`].
pub enum VisibilityView {
    Inherited,
    Public,
    Restricted { scope: Seq<char> },
}

impl View for Visibility {
    type V = VisibilityView;

    open spec fn view(&self) -> VisibilityView {
        match self {
            Visibility::Inherited => VisibilityView::Inherited,
            Visibility::Public => VisibilityView::Public,
            Visibility::Restricted { scope } => VisibilityView::Restricted { scope: scope@ },
        }
    }
}

/// The words before `fn`. They are carried along and never looked at, as
/// are the calling convention and the variadic of a signature.
#[derive(Debug, Clone, Copy, PartialEq, Eq, Structural)]
pub struct Modifiers {
    pub constant: bool,
    pub asynchronous: bool,
    pub unsafety: bool,
}

/// The first parameter where it is written with `self`.
#[derive(Debug, Clone, PartialEq, Eq)]
pub struct SubjectParam {
    /// The attributes written before the parameter.
    pub attrs: Vec<Attribute>,
    /// Whether `&` stands before `self`.
    pub by_reference: bool,
    /// The scope tag of that `&`, if one is written.
    pub scope: Option<String>,
    /// Whether `mut` is written.
    pub mutable: bool,
    /// The type written after `self:`, if any.
    pub ty: Option<TypeExpr>,
}

/// The model of a [`SubjectParam`].
pub struct SubjectParamView {
    pub attrs: Seq<AttributeView>,
    pub by_reference: bool,
    pub scope: Option<Seq<char>>,
    pub mutable: bool,
    pub ty: Option<TypeTree>,
}

impl View for SubjectParam {
    type V = SubjectParamView;

    open spec fn view(&self) -> SubjectParamView {
        SubjectParamView {
            attrs: attributes_of(self.attrs@),
            by_reference: self.by_reference,
            scope: text_of(self.scope),
            mutable: self.mutable,
            ty: opt_tree_of(self.ty),
        }
    }
}

/// A parameter with a pattern and a type.
#[derive(Debug, Clone, PartialEq, Eq)]
pub struct OrdinaryParam {
    /// The attributes written before the parameter.
    pub attrs: Vec<Attribute>,
    /// The pattern that binds the argument, as text.
    pub pattern: String,
    pub ty: TypeExpr,
}

/// The model of an [`OrdinaryParam`].
pub struct OrdinaryParamView {
    pub attrs: Seq<AttributeView>,
    pub pattern: Seq<char>,
    pub ty: TypeTree,
}

impl View for OrdinaryParam {
    type V = OrdinaryParamView;

    open spec fn view(&self) -> OrdinaryParamView {
        OrdinaryParamView {
            attrs: attributes_of(self.attrs@),
            pattern: self.pattern@,
            ty: tree_of(self.ty),
        }
    }
}

/// One parameter of a function.
#[derive(Debug, PartialEq, Eq)]
pub enum Param {
    Subject(SubjectParam),
    Ordinary(OrdinaryParam),
}

/// The model of a [`Param`].
pub enum ParamView {
    Subject(SubjectParamView),
    Ordinary(OrdinaryParamView),
}

impl View for Param {
    type V = ParamView;

    open spec fn view(&self) -> ParamView {
        match self {
            Param::Subject(p) => ParamView::Subject(p@),
            Param::Ordinary(p) => ParamView::Ordinary(p@),
        }
    }
}

/// The models of a parameter list, in order.
pub open spec fn inputs_of(ps: Seq<Param>) -> Seq<ParamView> {
    Seq::new(ps.len(), |i: int| ps[i]@)
}

impl Clone for Param {
    fn clone(&self) -> (out: Self)
        ensures
            out@ == self@,
    {
        match self {
            Param::Subject(p) => Param::Subject(
                SubjectParam {
                    attrs: copy_attributes(&p.attrs),
                    by_reference: p.by_reference,
                    scope: copy_text(&p.scope),
                    mutable: p.mutable,
                    ty: copy_opt_type(&p.ty),
                },
            ),
            Param::Ordinary(p) => Param::Ordinary(
                OrdinaryParam {
                    attrs: copy_attributes(&p.attrs),
                    pattern: p.pattern.clone(),
                    ty: copy_type(&p.ty),
                },
            ),
        }
    }
}

/// The signature of a function.
#[derive(Debug, Clone, PartialEq, Eq)]
pub struct Signature {
    pub modifiers: Modifiers,
    /// The calling convention as written, `extern` included, if any.
    pub abi: Option<String>,
    pub name: String,
    pub generics: Generics,
    pub inputs: Vec<Param>,
    /// What is written for further arguments of any number, if anything.
    pub variadic: Option<String>,
    /// The declared return type, if one is written.
    pub output: Option<TypeExpr>,
}

/// The model of a [`Signature`].
pub struct SignatureView {
    pub modifiers: Modifiers,
    pub abi: Option<Seq<char>>,
    pub name: Seq<char>,
    pub generics: GenericsView,
    pub inputs: Seq<ParamView>,
    pub variadic: Option<Seq<char>>,
    pub output: Option<TypeTree>,
}

impl View for Signature {
    type V = SignatureView;

    open spec fn view(&self) -> SignatureView {
        SignatureView {
            modifiers: self.modifiers,
            abi: text_of(self.abi),
            name: self.name@,
            generics: self.generics@,
            inputs: inputs_of(self.inputs@),
            variadic: text_of(self.variadic),
            output: opt_tree_of(self.output),
        }
    }
}

/// A function with all that is written of it. The body is text that is
/// carried along and never looked at.
#[derive(Debug, Clone, PartialEq, Eq)]
pub struct FunctionItem {
    pub attrs: Vec<Attribute>,
    pub vis: Visibility,
    pub sig: Signature,
    pub body: String,
}

/// The model of a [`FunctionItem`].
pub struct FunctionItemView {
    pub attrs: Seq<AttributeView>,
    pub vis: VisibilityView,
    pub sig: SignatureView,
    pub body: Seq<char>,
}

impl View for FunctionItem {
    type V = FunctionItemView;

    open spec fn view(&self) -> FunctionItemView {
        FunctionItemView {
            attrs: attributes_of(self.attrs@),
            vis: self.vis@,
            sig: self.sig@,
            body: self.body@,
        }
    }
}

} // verus!
