//! Which generic parameters a declared type refers to.
//!
//! The search goes by spelling alone: a name that is declared again in an
//! inner scope of the type is taken for the parameter.

use vstd::prelude::*;
use crate::generics::{params_of, GenericParam, GenericParamView, Generics, ParamKind};
use crate::types::{lemma_tree_of_children, tree_of, trees_of, TypeExpr, TypeTree};

verus! {

/// Whether a parameter of the given kind and name is written somewhere in `t`.
///
/// A scope tag is found where a tag of that name occurs. A constant is found
/// where the text of an array's length is its name. A type is found where a
/// segment of a path has no arguments, is its name and stands in a type: the
/// segments of a bound name a capability and are not looked at, their
/// arguments are.
pub open spec fn mentions(t: TypeTree, kind: ParamKind, name: Seq<char>) -> bool
    decreases t, 0nat,
{
    match t {
        TypeTree::Path { name: n, args } => (kind == ParamKind::Type && n == name && args.len()
            == 0) || mentions_any(args, kind, name),
        TypeTree::Member { base, name: n, args } => (kind == ParamKind::Type && n == name
            && args.len() == 0) || mentions(*base, kind, name) || mentions_any(args, kind, name),
        TypeTree::Verbatim { text, parts } => mentions_any(parts, kind, name),
        TypeTree::Reference { scope, mutable, inner } => (kind == ParamKind::ScopeTag && scope
            == Some(name)) || mentions(*inner, kind, name),
        TypeTree::Parenthesized { inner } => mentions(*inner, kind, name),
        TypeTree::Array { elem, len } => (kind == ParamKind::Constant && len == name) || mentions(
            *elem,
            kind,
            name,
        ),
        TypeTree::Tuple { elems } => mentions_any(elems, kind, name),
        TypeTree::FunctionPointer { inputs, output } => mentions_any(inputs, kind, name)
            || mentions(*output, kind, name),
        TypeTree::DynamicCapability { bounds } => mentions_in_bounds(bounds, kind, name),
        TypeTree::AnonymousExistential { bounds } => mentions_in_bounds(bounds, kind, name),
        TypeTree::ScopeTag { name: n } => kind == ParamKind::ScopeTag && n == name,
    }
}

/// Whether the parameter is written somewhere in one of `ts`.
pub open spec fn mentions_any(ts: Seq<TypeTree>, kind: ParamKind, name: Seq<char>) -> bool
    decreases ts, 0nat,
{
    exists|i: int| 0 <= i < ts.len() && mentions(#[trigger] ts[i], kind, name)
}

/// Whether the parameter is written in the bound `b`: in the arguments of
/// the segments of a named capability, or anywhere in a bound of another
/// shape.
pub open spec fn mentions_in_bound(b: TypeTree, kind: ParamKind, name: Seq<char>) -> bool
    decreases b, 1nat,
{
    match b {
        TypeTree::Path { name: n, args } => mentions_any(args, kind, name),
        TypeTree::Member { base, name: n, args } => mentions_in_bound(*base, kind, name)
            || mentions_any(args, kind, name),
        _ => mentions(b, kind, name),
    }
}

/// Whether the parameter is written in one of the bounds `bs`.
pub open spec fn mentions_in_bounds(bs: Seq<TypeTree>, kind: ParamKind, name: Seq<char>) -> bool
    decreases bs, 0nat,
{
    exists|i: int| 0 <= i < bs.len() && mentions_in_bound(#[trigger] bs[i], kind, name)
}

/// Whether the declared type refers to the generic parameter.
pub open spec fn uses(t: TypeTree, p: GenericParamView) -> bool {
    mentions(t, p.kind, p.name)
}

/// The search for one generic parameter in a declared type.
pub struct FindGenericParam<'gp> {
    generic_param: &'gp GenericParam,
    found: bool,
}

impl<'gp> FindGenericParam<'gp> {
    /// The parameter that is searched for.
    pub closed spec fn target(&self) -> GenericParamView {
        self.generic_param@
    }

    /// Whether the parameter has been found so far.
    pub closed spec fn hit(&self) -> bool {
        self.found
    }

    /// A search for `generic_param` that has found nothing yet.
    pub fn new(generic_param: &'gp GenericParam) -> (out: Self)
        ensures
            out.target() == generic_param@,
            !out.hit(),
    {
        Self { generic_param, found: false }
    }

    /// Whether the parameter has been found so far.
    pub fn found(&self) -> (out: bool)
        ensures
            out == self.hit(),
    {
        self.found
    }

    /// Looks at one scope tag.
    pub fn visit_lifetime(&mut self, name: &String)
        ensures
            final(self).target() == old(self).target(),
            final(self).hit() == (old(self).hit() || (old(self).target().kind
                == ParamKind::ScopeTag && old(self).target().name == name@)),
    {
        if let ParamKind::ScopeTag = self.generic_param.kind {
            let same = self.generic_param.name == *name;
            self.found = self.found || same;
        }
    }

    /// Looks at an array: at the text of its length, then into its element.
    pub fn visit_type_array(&mut self, elem: &TypeExpr, len: &String)
        ensures
            final(self).target() == old(self).target(),
            final(self).hit() == (old(self).hit() || (old(self).target().kind
                == ParamKind::Constant && old(self).target().name == len@) || uses(
                elem@,
                old(self).target(),
            )),
        decreases elem, 1nat,
    {
        if let ParamKind::Constant = self.generic_param.kind {
            let same = self.generic_param.name == *len;
            self.found = self.found || same;
        }
        self.visit_type(elem);
    }

    /// Looks at a path: at its name where it has no arguments, then into its
    /// arguments.
    pub fn visit_type_path(&mut self, name: &String, args: &Vec<TypeExpr>)
        ensures
            final(self).target() == old(self).target(),
            final(self).hit() == (old(self).hit() || (old(self).target().kind == ParamKind::Type
                && old(self).target().name == name@ && args.len() == 0) || mentions_any(
                trees_of(args@),
                old(self).target().kind,
                old(self).target().name,
            )),
        decreases args, 1nat,
    {
        if let ParamKind::Type = self.generic_param.kind {
            let same = self.generic_param.name == *name && args.len() == 0;
            self.found = self.found || same;
        }
        self.visit_types(args);
    }

    /// Looks into each of `ts` in turn.
    pub fn visit_types(&mut self, ts: &Vec<TypeExpr>)
        ensures
            final(self).target() == old(self).target(),
            final(self).hit() == (old(self).hit() || mentions_any(
                trees_of(ts@),
                old(self).target().kind,
                old(self).target().name,
            )),
        decreases ts, 0nat,
    {
        let ghost kind = self.target().kind;
        let ghost name = self.target().name;
        let ghost before = self.hit();
        let mut i: usize = 0;
        while i < ts.len()
            invariant
                i <= ts.len(),
                self.target() == old(self).target(),
                kind == old(self).target().kind,
                name == old(self).target().name,
                before == old(self).hit(),
                self.hit() == (before || exists|j: int|
                    0 <= j < i && mentions(#[trigger] trees_of(ts@)[j], kind, name)),
            decreases ts.len() - i,
        {
            let ghost so_far = self.hit();
            self.visit_type(&ts[i]);
            proof {
                let trees = trees_of(ts@);
                assert(trees[i as int] == tree_of(ts[i as int]));
                assert(self.hit() == (so_far || mentions(trees[i as int], kind, name)));
                if so_far && !before {
                    let j = choose|j: int| 0 <= j < i && mentions(#[trigger] trees[j], kind, name);
                    assert(0 <= j < i + 1 && mentions(trees[j], kind, name));
                }
            }
            i += 1;
        }
    }

    /// Looks into one bound: past the name of a capability, into its
    /// arguments.
    pub fn visit_bound(&mut self, bound: &TypeExpr)
        ensures
            final(self).target() == old(self).target(),
            final(self).hit() == (old(self).hit() || mentions_in_bound(
                bound@,
                old(self).target().kind,
                old(self).target().name,
            )),
        decreases bound, 1nat,
    {
        proof {
            lemma_tree_of_children(*bound);
        }
        match bound {
            TypeExpr::Path { name, args } => {
                self.visit_types(args);
            },
            TypeExpr::Member { base, name, args } => {
                self.visit_bound(base);
                self.visit_types(args);
            },
            other => {
                self.visit_type(other);
            },
        }
    }

    /// Looks into each of the bounds `bs` in turn.
    pub fn visit_bounds(&mut self, bs: &Vec<TypeExpr>)
        ensures
            final(self).target() == old(self).target(),
            final(self).hit() == (old(self).hit() || mentions_in_bounds(
                trees_of(bs@),
                old(self).target().kind,
                old(self).target().name,
            )),
        decreases bs, 0nat,
    {
        let ghost kind = self.target().kind;
        let ghost name = self.target().name;
        let ghost before = self.hit();
        let mut i: usize = 0;
        while i < bs.len()
            invariant
                i <= bs.len(),
                self.target() == old(self).target(),
                kind == old(self).target().kind,
                name == old(self).target().name,
                before == old(self).hit(),
                self.hit() == (before || exists|j: int|
                    0 <= j < i && mentions_in_bound(#[trigger] trees_of(bs@)[j], kind, name)),
            decreases bs.len() - i,
        {
            let ghost so_far = self.hit();
            self.visit_bound(&bs[i]);
            proof {
                let trees = trees_of(bs@);
                assert(trees[i as int] == tree_of(bs[i as int]));
                assert(self.hit() == (so_far || mentions_in_bound(trees[i as int], kind, name)));
                if so_far && !before {
                    let j = choose|j: int|
                        0 <= j < i && mentions_in_bound(#[trigger] trees[j], kind, name);
                    assert(0 <= j < i + 1 && mentions_in_bound(trees[j], kind, name));
                }
            }
            i += 1;
        }
    }

    /// Looks at a declared type and into all its parts.
    pub fn visit_type(&mut self, ty: &TypeExpr)
        ensures
            final(self).target() == old(self).target(),
            final(self).hit() == (old(self).hit() || uses(ty@, old(self).target())),
        decreases ty, 0nat,
    {
        proof {
            lemma_tree_of_children(*ty);
        }
        match ty {
            TypeExpr::Path { name, args } => {
                self.visit_type_path(name, args);
            },
            TypeExpr::Reference { scope, mutable, inner } => {
                match scope {
                    Some(tag) => {
                        self.visit_lifetime(tag);
                    },
                    None => {},
                }
                self.visit_type(inner);
            },
            TypeExpr::Parenthesized { inner } => {
                self.visit_type(inner);
            },
            TypeExpr::Array { elem, len } => {
                self.visit_type_array(elem, len);
            },
            TypeExpr::Tuple { elems } => {
                self.visit_types(elems);
            },
            TypeExpr::FunctionPointer { inputs, output } => {
                self.visit_types(inputs);
                self.visit_type(output);
            },
            TypeExpr::DynamicCapability { bounds } => {
                self.visit_bounds(bounds);
            },
            TypeExpr::AnonymousExistential { bounds } => {
                self.visit_bounds(bounds);
            },
            TypeExpr::ScopeTag { name } => {
                self.visit_lifetime(name);
            },
            TypeExpr::Member { base, name, args } => {
                self.visit_type(base);
                self.visit_type_path(name, args);
            },
            TypeExpr::Verbatim { text, parts } => {
                self.visit_types(parts);
            },
        }
    }
}

/// The parameters of `ps` that `t` refers to, in their order.
pub open spec fn promoted(t: TypeTree, ps: Seq<GenericParamView>) -> Seq<GenericParamView> {
    ps.filter(|p: GenericParamView| uses(t, p))
}

/// The parameters of `ps` that `t` does not refer to, in their order.
pub open spec fn retained(t: TypeTree, ps: Seq<GenericParamView>) -> Seq<GenericParamView> {
    ps.filter(|p: GenericParamView| !uses(t, p))
}

/// Whether `ty` refers to `generic_param`.
pub fn type_uses_generic_param(ty: &TypeExpr, generic_param: &GenericParam) -> (out: bool)
    ensures
        out == uses(ty@, generic_param@),
{
    let mut visitor = FindGenericParam::new(generic_param);
    visitor.visit_type(ty);
    visitor.found()
}

/// Takes out of `generics` the parameters that `ty` refers to.
///
/// Those come back, in their order and without a constraint clause; the
/// others stay in `generics`, in their order. The constraint clause of
/// `generics` stays as it is.
pub fn extract_impl_generics(ty: &TypeExpr, generics: &mut Generics) -> (extracted: Generics)
    ensures
        extracted@.params == promoted(ty@, old(generics)@.params),
        extracted@.where_clause.is_none(),
        final(generics)@.params == retained(ty@, old(generics)@.params),
        final(generics)@.where_clause == old(generics)@.where_clause,
{
    let mut taken: Vec<GenericParam> = Vec::new();
    let mut leftovers: Vec<GenericParam> = Vec::new();
    let ghost all = params_of(generics.params@);
    let ghost wanted = |p: GenericParamView| uses(ty@, p);
    let ghost unwanted = |p: GenericParamView| !uses(ty@, p);
    let mut i: usize = 0;
    assert(all.take(0) =~= Seq::empty());
    assert(params_of(taken@) =~= Seq::empty());
    assert(params_of(leftovers@) =~= Seq::empty());
    while i < generics.params.len()
        invariant
            i <= generics.params.len(),
            *generics == *old(generics),
            all == params_of(generics.params@),
            wanted == |p: GenericParamView| uses(ty@, p),
            unwanted == |p: GenericParamView| !uses(ty@, p),
            params_of(taken@) == all.take(i as int).filter(wanted),
            params_of(leftovers@) == all.take(i as int).filter(unwanted),
        decreases generics.params.len() - i,
    {
        let param = generics.params[i].clone();
        proof {
            assert(all.take(i + 1) =~= all.take(i as int).push(param@));
            all.take(i as int).lemma_filter_push(param@, wanted);
            all.take(i as int).lemma_filter_push(param@, unwanted);
        }
        if type_uses_generic_param(ty, &param) {
            assert(params_of(taken@.push(param)) =~= params_of(taken@).push(param@));
            taken.push(param);
        } else {
            assert(params_of(leftovers@.push(param)) =~= params_of(leftovers@).push(param@));
            leftovers.push(param);
        }
        i += 1;
    }
    assert(all.take(i as int) =~= all);
    generics.params = leftovers;
    Generics { params: taken, where_clause: None }
}

} // verus!
