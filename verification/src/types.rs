//! Declared types: their shapes as written in a signature, and the
//! mathematical tree that contracts speak of.

use vstd::prelude::*;

verus! {

/// A declared type, as written in a signature.
///
/// Scope tags are kept without their leading apostrophe. A scope tag that
/// stands where a type argument or a bound may stand is a node of its own.
#[derive(Debug, PartialEq, Eq)]
pub enum TypeExpr {
    /// The first segment of a path with its arguments: `usize`, `Vec<T>`. A
    /// path that starts with `::` has a first segment with the empty name.
    Path { name: String, args: Vec<TypeExpr> },
    /// A further segment of a path, behind what stands before its `::`:
    /// `T::Item` is the segment `Item` behind `T`.
    Member { base: Box<TypeExpr>, name: String, args: Vec<TypeExpr> },
    /// A reference to a type, with its scope tag if one is written.
    Reference { scope: Option<String>, mutable: bool, inner: Box<TypeExpr> },
    /// A type in round brackets.
    Parenthesized { inner: Box<TypeExpr> },
    /// An array; the length is kept as the text of its expression.
    Array { elem: Box<TypeExpr>, len: String },
    /// A tuple of types.
    Tuple { elems: Vec<TypeExpr> },
    /// A function pointer: the types it takes and the type it gives.
    FunctionPointer { inputs: Vec<TypeExpr>, output: Box<TypeExpr> },
    /// A dynamically dispatched capability: `dyn A + B`.
    DynamicCapability { bounds: Vec<TypeExpr> },
    /// Some unnamed type that satisfies the bounds: `impl A + B`.
    AnonymousExistential { bounds: Vec<TypeExpr> },
    /// A scope tag in argument or bound position.
    ScopeTag { name: String },
    /// Any other shape: its text, and beside it the types and scope tags
    /// that are written in it, from left to right. The text has a hole for
    /// each type among them.
    Verbatim { text: String, parts: Vec<TypeExpr> },
}

/// The model of a [`TypeExpr`]: the same tree over sequences.
pub enum TypeTree {
    Path { name: Seq<char>, args: Seq<TypeTree> },
    Member { base: Box<TypeTree>, name: Seq<char>, args: Seq<TypeTree> },
    Reference { scope: Option<Seq<char>>, mutable: bool, inner: Box<TypeTree> },
    Parenthesized { inner: Box<TypeTree> },
    Array { elem: Box<TypeTree>, len: Seq<char> },
    Tuple { elems: Seq<TypeTree> },
    FunctionPointer { inputs: Seq<TypeTree>, output: Box<TypeTree> },
    DynamicCapability { bounds: Seq<TypeTree> },
    AnonymousExistential { bounds: Seq<TypeTree> },
    ScopeTag { name: Seq<char> },
    Verbatim { text: Seq<char>, parts: Seq<TypeTree> },
}

/// The model of an optional piece of text.
pub open spec fn text_of(t: Option<String>) -> Option<Seq<char>> {
    match t {
        Some(s) => Some(s@),
        None => None,
    }
}

/// The model of a declared type.
pub open spec fn tree_of(t: TypeExpr) -> TypeTree
    decreases t,
{
    match t {
        TypeExpr::Path { name, args } => TypeTree::Path {
            name: name@,
            args: Seq::new(
                args.len() as nat,
                |i: int| if 0 <= i < args.len() { tree_of(args[i]) } else { arbitrary() },
            ),
        },
        TypeExpr::Member { base, name, args } => TypeTree::Member {
            base: Box::new(tree_of(*base)),
            name: name@,
            args: Seq::new(
                args.len() as nat,
                |i: int| if 0 <= i < args.len() { tree_of(args[i]) } else { arbitrary() },
            ),
        },
        TypeExpr::Reference { scope, mutable, inner } => TypeTree::Reference {
            scope: text_of(scope),
            mutable: mutable,
            inner: Box::new(tree_of(*inner)),
        },
        TypeExpr::Parenthesized { inner } => TypeTree::Parenthesized {
            inner: Box::new(tree_of(*inner)),
        },
        TypeExpr::Array { elem, len } => TypeTree::Array {
            elem: Box::new(tree_of(*elem)),
            len: len@,
        },
        TypeExpr::Tuple { elems } => TypeTree::Tuple {
            elems: Seq::new(
                elems.len() as nat,
                |i: int| if 0 <= i < elems.len() { tree_of(elems[i]) } else { arbitrary() },
            ),
        },
        TypeExpr::FunctionPointer { inputs, output } => TypeTree::FunctionPointer {
            inputs: Seq::new(
                inputs.len() as nat,
                |i: int| if 0 <= i < inputs.len() { tree_of(inputs[i]) } else { arbitrary() },
            ),
            output: Box::new(tree_of(*output)),
        },
        TypeExpr::DynamicCapability { bounds } => TypeTree::DynamicCapability {
            bounds: Seq::new(
                bounds.len() as nat,
                |i: int| if 0 <= i < bounds.len() { tree_of(bounds[i]) } else { arbitrary() },
            ),
        },
        TypeExpr::AnonymousExistential { bounds } => TypeTree::AnonymousExistential {
            bounds: Seq::new(
                bounds.len() as nat,
                |i: int| if 0 <= i < bounds.len() { tree_of(bounds[i]) } else { arbitrary() },
            ),
        },
        TypeExpr::ScopeTag { name } => TypeTree::ScopeTag { name: name@ },
        TypeExpr::Verbatim { text, parts } => TypeTree::Verbatim {
            text: text@,
            parts: Seq::new(
                parts.len() as nat,
                |i: int| if 0 <= i < parts.len() { tree_of(parts[i]) } else { arbitrary() },
            ),
        },
    }
}

/// The models of a list of declared types, in order.
pub open spec fn trees_of(ts: Seq<TypeExpr>) -> Seq<TypeTree> {
    Seq::new(ts.len(), |i: int| tree_of(ts[i]))
}

/// The model of a node's list of children is the list of their models.
pub proof fn lemma_tree_of_children(t: TypeExpr)
    ensures
        match t {
            TypeExpr::Path { name, args } => tree_of(t) == (TypeTree::Path {
                name: name@,
                args: trees_of(args@),
            }),
            TypeExpr::Member { base, name, args } => tree_of(t) == (TypeTree::Member {
                base: Box::new(tree_of(*base)),
                name: name@,
                args: trees_of(args@),
            }),
            TypeExpr::Verbatim { text, parts } => tree_of(t) == (TypeTree::Verbatim {
                text: text@,
                parts: trees_of(parts@),
            }),
            TypeExpr::Tuple { elems } => tree_of(t) == (TypeTree::Tuple { elems: trees_of(elems@) }),
            TypeExpr::FunctionPointer { inputs, output } => tree_of(t)
                == (TypeTree::FunctionPointer {
                inputs: trees_of(inputs@),
                output: Box::new(tree_of(*output)),
            }),
            TypeExpr::DynamicCapability { bounds } => tree_of(t) == (TypeTree::DynamicCapability {
                bounds: trees_of(bounds@),
            }),
            TypeExpr::AnonymousExistential { bounds } => tree_of(t)
                == (TypeTree::AnonymousExistential { bounds: trees_of(bounds@) }),
            _ => true,
        },
{
    match t {
        TypeExpr::Path { name, args } => {
            assert(tree_of(t)->Path_args =~= trees_of(args@));
        },
        TypeExpr::Member { base, name, args } => {
            assert(tree_of(t)->Member_args =~= trees_of(args@));
        },
        TypeExpr::Verbatim { text, parts } => {
            assert(tree_of(t)->Verbatim_parts =~= trees_of(parts@));
        },
        TypeExpr::Tuple { elems } => {
            assert(tree_of(t)->Tuple_elems =~= trees_of(elems@));
        },
        TypeExpr::FunctionPointer { inputs, output } => {
            assert(tree_of(t)->FunctionPointer_inputs =~= trees_of(inputs@));
        },
        TypeExpr::DynamicCapability { bounds } => {
            assert(tree_of(t)->DynamicCapability_bounds =~= trees_of(bounds@));
        },
        TypeExpr::AnonymousExistential { bounds } => {
            assert(tree_of(t)->AnonymousExistential_bounds =~= trees_of(bounds@));
        },
        _ => {},
    }
}

impl View for TypeExpr {
    type V = TypeTree;

    open spec fn view(&self) -> TypeTree {
        tree_of(*self)
    }
}

/// A copy of an optional piece of text.
pub fn copy_text(t: &Option<String>) -> (out: Option<String>)
    ensures
        text_of(out) == text_of(*t),
{
    match t {
        Some(s) => Some(s.clone()),
        None => None,
    }
}

/// A copy of a list of declared types.
pub fn copy_types(ts: &Vec<TypeExpr>) -> (out: Vec<TypeExpr>)
    ensures
        trees_of(out@) == trees_of(ts@),
    decreases ts,
{
    let mut out: Vec<TypeExpr> = Vec::new();
    let mut i: usize = 0;
    while i < ts.len()
        invariant
            i <= ts.len(),
            out.len() == i,
            forall|j: int| 0 <= j < i ==> tree_of(#[trigger] out[j]) == tree_of(ts[j]),
        decreases ts.len() - i,
    {
        let item = copy_type(&ts[i]);
        out.push(item);
        i += 1;
    }
    assert(trees_of(out@) =~= trees_of(ts@));
    out
}

/// A copy of a declared type.
pub fn copy_type(t: &TypeExpr) -> (out: TypeExpr)
    ensures
        out@ == t@,
    decreases t,
{
    proof {
        lemma_tree_of_children(*t);
    }
    let out = match t {
        TypeExpr::Path { name, args } => TypeExpr::Path {
            name: name.clone(),
            args: copy_types(args),
        },
        TypeExpr::Reference { scope, mutable, inner } => TypeExpr::Reference {
            scope: copy_text(scope),
            mutable: *mutable,
            inner: Box::new(copy_type(inner)),
        },
        TypeExpr::Parenthesized { inner } => TypeExpr::Parenthesized {
            inner: Box::new(copy_type(inner)),
        },
        TypeExpr::Array { elem, len } => TypeExpr::Array {
            elem: Box::new(copy_type(elem)),
            len: len.clone(),
        },
        TypeExpr::Tuple { elems } => TypeExpr::Tuple { elems: copy_types(elems) },
        TypeExpr::FunctionPointer { inputs, output } => TypeExpr::FunctionPointer {
            inputs: copy_types(inputs),
            output: Box::new(copy_type(output)),
        },
        TypeExpr::DynamicCapability { bounds } => TypeExpr::DynamicCapability {
            bounds: copy_types(bounds),
        },
        TypeExpr::AnonymousExistential { bounds } => TypeExpr::AnonymousExistential {
            bounds: copy_types(bounds),
        },
        TypeExpr::ScopeTag { name } => TypeExpr::ScopeTag { name: name.clone() },
        TypeExpr::Member { base, name, args } => TypeExpr::Member {
            base: Box::new(copy_type(base)),
            name: name.clone(),
            args: copy_types(args),
        },
        TypeExpr::Verbatim { text, parts } => TypeExpr::Verbatim {
            text: text.clone(),
            parts: copy_types(parts),
        },
    };
    proof {
        lemma_tree_of_children(out);
    }
    out
}

impl Clone for TypeExpr {
    fn clone(&self) -> (out: Self)
        ensures
            out@ == self@,
    {
        copy_type(self)
    }
}

} // verus!
