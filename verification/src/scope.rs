//! The names in scope of a rewrite, and the padding that keeps the names it
//! introduces apart from them.
//!
//! Every introduced name begins with `_T` and is longer than every text in
//! scope that holds `_T`: it is equal to none of them.

use vstd::prelude::*;
use vstd::string::StrSliceExecFns;
use crate::generics::{params_of, GenericParam, GenericParamView};
use crate::types::{lemma_tree_of_children, tree_of, trees_of, TypeExpr, TypeTree};

verus! {

/// Whether `_T` stands in `s` at place `i`.
pub open spec fn marker_at(s: Seq<char>, i: int) -> bool {
    0 <= i && i + 1 < s.len() && s[i] == '_' && s[i + 1] == 'T'
}

/// Whether `_T` stands somewhere in `s`.
pub open spec fn has_marker(s: Seq<char>) -> bool {
    exists|i: int| marker_at(s, i)
}

/// The length of `s` where `_T` stands in it, else zero.
pub open spec fn marked_len(s: Seq<char>) -> nat {
    if has_marker(s) {
        s.len()
    } else {
        0
    }
}

/// The larger of two numbers.
pub open spec fn larger(a: nat, b: nat) -> nat {
    if a >= b {
        a
    } else {
        b
    }
}

/// The length of the longest text written in `t` that holds `_T`: among the
/// names of its segments, its scope tags, the lengths of its arrays and the
/// texts of its other shapes. Zero where there is none.
pub open spec fn widest(t: TypeTree) -> nat
    decreases t, 0nat,
{
    match t {
        TypeTree::Path { name, args } => larger(marked_len(name), widest_first(args, args.len())),
        TypeTree::Member { base, name, args } => larger(
            widest(*base),
            larger(marked_len(name), widest_first(args, args.len())),
        ),
        TypeTree::Reference { scope, mutable, inner } => larger(
            match scope {
                Some(tag) => marked_len(tag),
                None => 0,
            },
            widest(*inner),
        ),
        TypeTree::Parenthesized { inner } => widest(*inner),
        TypeTree::Array { elem, len } => larger(marked_len(len), widest(*elem)),
        TypeTree::Tuple { elems } => widest_first(elems, elems.len()),
        TypeTree::FunctionPointer { inputs, output } => larger(
            widest_first(inputs, inputs.len()),
            widest(*output),
        ),
        TypeTree::DynamicCapability { bounds } => widest_first(bounds, bounds.len()),
        TypeTree::AnonymousExistential { bounds } => widest_first(bounds, bounds.len()),
        TypeTree::ScopeTag { name } => marked_len(name),
        TypeTree::Verbatim { text, parts } => larger(
            marked_len(text),
            widest_first(parts, parts.len()),
        ),
    }
}

/// The same over the first `k` of `ts`.
pub open spec fn widest_first(ts: Seq<TypeTree>, k: nat) -> nat
    decreases ts, k,
{
    if k == 0 || k > ts.len() {
        0
    } else {
        larger(widest_first(ts, (k - 1) as nat), widest(ts[k - 1]))
    }
}

/// Whether `s` is one of the texts written in `t`: the name of a segment, a
/// scope tag, the length of an array or the text of another shape.
pub open spec fn written(t: TypeTree, s: Seq<char>) -> bool
    decreases t, 0nat,
{
    match t {
        TypeTree::Path { name, args } => name == s || written_any(args, s),
        TypeTree::Member { base, name, args } => name == s || written(*base, s) || written_any(
            args,
            s,
        ),
        TypeTree::Reference { scope, mutable, inner } => scope == Some(s) || written(*inner, s),
        TypeTree::Parenthesized { inner } => written(*inner, s),
        TypeTree::Array { elem, len } => len == s || written(*elem, s),
        TypeTree::Tuple { elems } => written_any(elems, s),
        TypeTree::FunctionPointer { inputs, output } => written_any(inputs, s) || written(
            *output,
            s,
        ),
        TypeTree::DynamicCapability { bounds } => written_any(bounds, s),
        TypeTree::AnonymousExistential { bounds } => written_any(bounds, s),
        TypeTree::ScopeTag { name } => name == s,
        TypeTree::Verbatim { text, parts } => text == s || written_any(parts, s),
    }
}

/// Whether `s` is written in one of `ts`.
pub open spec fn written_any(ts: Seq<TypeTree>, s: Seq<char>) -> bool
    decreases ts, 0nat,
{
    exists|i: int| 0 <= i < ts.len() && written(#[trigger] ts[i], s)
}

/// The length of the longest name among the first `k` parameters that holds
/// `_T`. Zero where there is none.
pub open spec fn widest_name(ps: Seq<GenericParamView>, k: nat) -> nat
    decreases k,
{
    if k == 0 || k > ps.len() {
        0
    } else {
        larger(widest_name(ps, (k - 1) as nat), marked_len(ps[k - 1].name))
    }
}

/// How many zeros stand in each introduced name, for a subject type and the
/// generic parameters of its function: as many as the longest text that is
/// written in either and holds `_T` has characters.
pub open spec fn padding(subject: TypeTree, params: Seq<GenericParamView>) -> nat {
    larger(widest(subject), widest_name(params, params.len()))
}

fn wider(a: usize, b: usize) -> (out: usize)
    ensures
        out == larger(a as nat, b as nat),
{
    if a >= b {
        a
    } else {
        b
    }
}

/// The length of `s` where `_T` stands in it, else zero.
pub fn marked_length(s: &String) -> (out: usize)
    ensures
        out == marked_len(s@),
{
    let text = s.as_str();
    let n = text.unicode_len();
    if n < 2 {
        return 0;
    }
    let mut i: usize = 0;
    while i < n - 1
        invariant
            2 <= n == s@.len(),
            i <= n - 1,
            text@ == s@,
            forall|j: int| 0 <= j < i ==> !marker_at(s@, j),
        decreases n - i,
    {
        if text.get_char(i) == '_' && text.get_char(i + 1) == 'T' {
            assert(marker_at(s@, i as int));
            return n;
        }
        i += 1;
    }
    0
}

/// The length of the longest marked text in the first types of a list.
pub fn widest_in_all(ts: &Vec<TypeExpr>) -> (out: usize)
    ensures
        out == widest_first(trees_of(ts@), ts.len() as nat),
    decreases ts, 0nat,
{
    let mut out: usize = 0;
    let mut i: usize = 0;
    while i < ts.len()
        invariant
            i <= ts.len(),
            out == widest_first(trees_of(ts@), i as nat),
        decreases ts.len() - i,
    {
        assert(trees_of(ts@)[i as int] == tree_of(ts[i as int]));
        let here = widest_in(&ts[i]);
        out = wider(out, here);
        i += 1;
    }
    out
}

/// The length of the longest marked text written in a declared type.
pub fn widest_in(t: &TypeExpr) -> (out: usize)
    ensures
        out == widest(t@),
    decreases t, 1nat,
{
    proof {
        lemma_tree_of_children(*t);
    }
    match t {
        TypeExpr::Path { name, args } => wider(marked_length(name), widest_in_all(args)),
        TypeExpr::Member { base, name, args } => wider(
            widest_in(base),
            wider(marked_length(name), widest_in_all(args)),
        ),
        TypeExpr::Reference { scope, mutable, inner } => {
            let tag = match scope {
                Some(tag) => marked_length(tag),
                None => 0,
            };
            wider(tag, widest_in(inner))
        },
        TypeExpr::Parenthesized { inner } => widest_in(inner),
        TypeExpr::Array { elem, len } => wider(marked_length(len), widest_in(elem)),
        TypeExpr::Tuple { elems } => widest_in_all(elems),
        TypeExpr::FunctionPointer { inputs, output } => wider(
            widest_in_all(inputs),
            widest_in(output),
        ),
        TypeExpr::DynamicCapability { bounds } => widest_in_all(bounds),
        TypeExpr::AnonymousExistential { bounds } => widest_in_all(bounds),
        TypeExpr::ScopeTag { name } => marked_length(name),
        TypeExpr::Verbatim { text, parts } => wider(marked_length(text), widest_in_all(parts)),
    }
}

/// The padding for a subject type and the generic parameters of its
/// function.
pub fn padding_for(subject: &TypeExpr, params: &Vec<GenericParam>) -> (out: usize)
    ensures
        out == padding(subject@, params_of(params@)),
{
    let mut names: usize = 0;
    let mut i: usize = 0;
    while i < params.len()
        invariant
            i <= params.len(),
            names == widest_name(params_of(params@), i as nat),
        decreases params.len() - i,
    {
        assert(params_of(params@)[i as int] == params[i as int]@);
        names = wider(names, marked_length(&params[i].name));
        i += 1;
    }
    wider(widest_in(subject), names)
}

} // verus!
