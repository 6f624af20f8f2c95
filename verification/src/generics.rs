//! Generic parameters and the constraint clause of a signature.

use vstd::prelude::*;
use crate::types::{copy_type, copy_types, tree_of, trees_of, TypeExpr, TypeTree};

verus! {

/// What a generic parameter stands for.
#[derive(Debug, Clone, Copy, PartialEq, Eq, Structural)]
pub enum ParamKind {
    /// A scope tag (a lifetime), named without its apostrophe.
    ScopeTag,
    /// A type.
    Type,
    /// A constant value.
    Constant,
}

/// One generic parameter of a function, an interface or a binding.
#[derive(Debug, PartialEq, Eq)]
pub struct GenericParam {
    pub kind: ParamKind,
    pub name: String,
    /// The bounds written after the parameter's name.
    pub bounds: Vec<TypeExpr>,
    /// The declared type of a constant parameter.
    pub const_type: Option<TypeExpr>,
}

/// The model of a [`GenericParam`].
pub struct GenericParamView {
    pub kind: ParamKind,
    pub name: Seq<char>,
    pub bounds: Seq<TypeTree>,
    pub const_type: Option<TypeTree>,
}

/// The model of an optional declared type.
pub open spec fn opt_tree_of(t: Option<TypeExpr>) -> Option<TypeTree> {
    match t {
        Some(ty) => Some(tree_of(ty)),
        None => None,
    }
}

impl View for GenericParam {
    type V = GenericParamView;

    open spec fn view(&self) -> GenericParamView {
        GenericParamView {
            kind: self.kind,
            name: self.name@,
            bounds: trees_of(self.bounds@),
            const_type: opt_tree_of(self.const_type),
        }
    }
}

/// The models of a list of generic parameters, in order.
pub open spec fn params_of(ps: Seq<GenericParam>) -> Seq<GenericParamView> {
    Seq::new(ps.len(), |i: int| ps[i]@)
}

/// Whether no two parameters of the list have the same kind and name.
pub open spec fn distinct_names(ps: Seq<GenericParamView>) -> bool {
    forall|i: int, j: int|
        0 <= i < j < ps.len() ==> !(ps[i].kind == ps[j].kind && ps[i].name == ps[j].name)
}

/// One predicate of a constraint clause.
#[derive(Debug, PartialEq, Eq)]
pub enum Predicate {
    /// `'a: 'b + 'c`
    ScopeTag { tag: String, bounds: Vec<TypeExpr> },
    /// `T: A + B`
    Type { bounded: TypeExpr, bounds: Vec<TypeExpr> },
}

/// The model of a [`Predicate`].
pub enum PredicateView {
    ScopeTag { tag: Seq<char>, bounds: Seq<TypeTree> },
    Type { bounded: TypeTree, bounds: Seq<TypeTree> },
}

impl View for Predicate {
    type V = PredicateView;

    open spec fn view(&self) -> PredicateView {
        match self {
            Predicate::ScopeTag { tag, bounds } => PredicateView::ScopeTag {
                tag: tag@,
                bounds: trees_of(bounds@),
            },
            Predicate::Type { bounded, bounds } => PredicateView::Type {
                bounded: tree_of(*bounded),
                bounds: trees_of(bounds@),
            },
        }
    }
}

/// The models of a list of predicates, in order.
pub open spec fn predicates_of(ps: Seq<Predicate>) -> Seq<PredicateView> {
    Seq::new(ps.len(), |i: int| ps[i]@)
}

/// The model of an optional constraint clause.
pub open spec fn clause_of(c: Option<Vec<Predicate>>) -> Option<Seq<PredicateView>> {
    match c {
        Some(ps) => Some(predicates_of(ps@)),
        None => None,
    }
}

/// A generic parameter list with its optional constraint clause.
#[derive(Debug, PartialEq, Eq)]
pub struct Generics {
    pub params: Vec<GenericParam>,
    pub where_clause: Option<Vec<Predicate>>,
}

/// The model of a [`Generics`].
pub struct GenericsView {
    pub params: Seq<GenericParamView>,
    pub where_clause: Option<Seq<PredicateView>>,
}

impl View for Generics {
    type V = GenericsView;

    open spec fn view(&self) -> GenericsView {
        GenericsView {
            params: params_of(self.params@),
            where_clause: clause_of(self.where_clause),
        }
    }
}

impl Default for Generics {
    /// No parameter and no constraint clause.
    fn default() -> (out: Self)
        ensures
            out@ == (GenericsView { params: Seq::empty(), where_clause: None }),
    {
        let out = Generics { params: Vec::new(), where_clause: None };
        assert(params_of(out.params@) =~= Seq::empty());
        out
    }
}

/// A copy of an optional declared type.
pub fn copy_opt_type(t: &Option<TypeExpr>) -> (out: Option<TypeExpr>)
    ensures
        opt_tree_of(out) == opt_tree_of(*t),
{
    match t {
        Some(ty) => Some(copy_type(ty)),
        None => None,
    }
}

impl Clone for GenericParam {
    fn clone(&self) -> (out: Self)
        ensures
            out@ == self@,
    {
        GenericParam {
            kind: self.kind,
            name: self.name.clone(),
            bounds: copy_types(&self.bounds),
            const_type: copy_opt_type(&self.const_type),
        }
    }
}

impl Clone for Predicate {
    fn clone(&self) -> (out: Self)
        ensures
            out@ == self@,
    {
        match self {
            Predicate::ScopeTag { tag, bounds } => Predicate::ScopeTag {
                tag: tag.clone(),
                bounds: copy_types(bounds),
            },
            Predicate::Type { bounded, bounds } => Predicate::Type {
                bounded: copy_type(bounded),
                bounds: copy_types(bounds),
            },
        }
    }
}

/// A copy of a list of generic parameters.
pub fn copy_params(ps: &Vec<GenericParam>) -> (out: Vec<GenericParam>)
    ensures
        params_of(out@) == params_of(ps@),
{
    let mut out: Vec<GenericParam> = Vec::new();
    let mut i: usize = 0;
    while i < ps.len()
        invariant
            i <= ps.len(),
            out.len() == i,
            forall|j: int| 0 <= j < i ==> (#[trigger] out[j])@ == ps[j]@,
        decreases ps.len() - i,
    {
        out.push(ps[i].clone());
        i += 1;
    }
    assert(params_of(out@) =~= params_of(ps@));
    out
}

/// A copy of a list of predicates.
pub fn copy_predicates(ps: &Vec<Predicate>) -> (out: Vec<Predicate>)
    ensures
        predicates_of(out@) == predicates_of(ps@),
{
    let mut out: Vec<Predicate> = Vec::new();
    let mut i: usize = 0;
    while i < ps.len()
        invariant
            i <= ps.len(),
            out.len() == i,
            forall|j: int| 0 <= j < i ==> (#[trigger] out[j])@ == ps[j]@,
        decreases ps.len() - i,
    {
        out.push(ps[i].clone());
        i += 1;
    }
    assert(predicates_of(out@) =~= predicates_of(ps@));
    out
}

impl Clone for Generics {
    fn clone(&self) -> (out: Self)
        ensures
            out@ == self@,
    {
        Generics {
            params: copy_params(&self.params),
            where_clause: match &self.where_clause {
                Some(ps) => Some(copy_predicates(ps)),
                None => None,
            },
        }
    }
}

} // verus!
