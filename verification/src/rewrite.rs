//! Unnamed existential types become named type parameters.

use vstd::prelude::*;
use vstd::string::StringExecFns;
use crate::generics::{params_of, GenericParam, GenericParamView, Generics, GenericsView, ParamKind};
use crate::types::{copy_text, lemma_tree_of_children, tree_of, trees_of, TypeExpr, TypeTree};

verus! {

/// The character of a decimal digit.
pub open spec fn digit(d: nat) -> char {
    if d == 0 {
        '0'
    } else if d == 1 {
        '1'
    } else if d == 2 {
        '2'
    } else if d == 3 {
        '3'
    } else if d == 4 {
        '4'
    } else if d == 5 {
        '5'
    } else if d == 6 {
        '6'
    } else if d == 7 {
        '7'
    } else if d == 8 {
        '8'
    } else {
        '9'
    }
}

/// A number written in decimal, without leading zeros.
pub open spec fn decimal(n: nat) -> Seq<char>
    decreases n,
{
    if n < 10 {
        seq![digit(n)]
    } else {
        decimal(n / 10).push(digit(n % 10))
    }
}

/// A row of `pad` zeros.
pub open spec fn zeros(pad: nat) -> Seq<char> {
    Seq::new(pad, |i: int| '0')
}

/// The name of the `n`-th type parameter that a rewrite introduces: `_T`,
/// then `pad` zeros, then the number. Without padding the names are `_T1`,
/// `_T2`, and so on.
pub open spec fn fresh_name(pad: nat, n: nat) -> Seq<char> {
    seq!['_', 'T'] + zeros(pad) + decimal(n)
}

/// What a rewrite makes of one declared type.
pub struct Rewritten {
    /// The type with each existential replaced by the name given to it.
    pub tree: TypeTree,
    /// The type parameters introduced, in the order of their numbers.
    pub fresh: Seq<GenericParamView>,
}

/// What a rewrite makes of a list of declared types.
pub struct RewrittenAll {
    pub trees: Seq<TypeTree>,
    pub fresh: Seq<GenericParamView>,
}

/// The rewrite of `t` after `used` names have been given out, with `pad`
/// zeros in each name.
///
/// The parts of a node are rewritten from left to right and before the node
/// itself, so an existential inside another gets the smaller number. An
/// existential becomes a path that names a new type parameter, and that
/// parameter carries the existential's rewritten bounds.
pub open spec fn rewrite(t: TypeTree, used: nat, pad: nat) -> Rewritten
    decreases t, 0nat,
{
    match t {
        TypeTree::Path { name, args } => {
            let r = rewrite_first(args, args.len(), used, pad);
            Rewritten { tree: TypeTree::Path { name, args: r.trees }, fresh: r.fresh }
        },
        TypeTree::Reference { scope, mutable, inner } => {
            let r = rewrite(*inner, used, pad);
            Rewritten {
                tree: TypeTree::Reference { scope, mutable, inner: Box::new(r.tree) },
                fresh: r.fresh,
            }
        },
        TypeTree::Parenthesized { inner } => {
            let r = rewrite(*inner, used, pad);
            Rewritten { tree: TypeTree::Parenthesized { inner: Box::new(r.tree) }, fresh: r.fresh }
        },
        TypeTree::Array { elem, len } => {
            let r = rewrite(*elem, used, pad);
            Rewritten { tree: TypeTree::Array { elem: Box::new(r.tree), len }, fresh: r.fresh }
        },
        TypeTree::Tuple { elems } => {
            let r = rewrite_first(elems, elems.len(), used, pad);
            Rewritten { tree: TypeTree::Tuple { elems: r.trees }, fresh: r.fresh }
        },
        TypeTree::FunctionPointer { inputs, output } => {
            let a = rewrite_first(inputs, inputs.len(), used, pad);
            let b = rewrite(*output, used + a.fresh.len(), pad);
            Rewritten {
                tree: TypeTree::FunctionPointer { inputs: a.trees, output: Box::new(b.tree) },
                fresh: a.fresh + b.fresh,
            }
        },
        TypeTree::DynamicCapability { bounds } => {
            let r = rewrite_first(bounds, bounds.len(), used, pad);
            Rewritten { tree: TypeTree::DynamicCapability { bounds: r.trees }, fresh: r.fresh }
        },
        TypeTree::AnonymousExistential { bounds } => {
            let r = rewrite_first(bounds, bounds.len(), used, pad);
            let name = fresh_name(pad, used + r.fresh.len() + 1);
            Rewritten {
                tree: TypeTree::Path { name, args: Seq::empty() },
                fresh: r.fresh.push(
                    GenericParamView {
                        kind: ParamKind::Type,
                        name,
                        bounds: r.trees,
                        const_type: None,
                    },
                ),
            }
        },
        TypeTree::ScopeTag { name } => Rewritten { tree: t, fresh: Seq::empty() },
        TypeTree::Member { base, name, args } => {
            let a = rewrite(*base, used, pad);
            let b = rewrite_first(args, args.len(), used + a.fresh.len(), pad);
            Rewritten {
                tree: TypeTree::Member { base: Box::new(a.tree), name, args: b.trees },
                fresh: a.fresh + b.fresh,
            }
        },
        TypeTree::Verbatim { text, parts } => {
            let r = rewrite_first(parts, parts.len(), used, pad);
            Rewritten { tree: TypeTree::Verbatim { text, parts: r.trees }, fresh: r.fresh }
        },
    }
}

/// The rewrite of the first `k` of `ts`, from left to right.
pub open spec fn rewrite_first(ts: Seq<TypeTree>, k: nat, used: nat, pad: nat) -> RewrittenAll
    decreases ts, k,
{
    if k == 0 || k > ts.len() {
        RewrittenAll { trees: Seq::empty(), fresh: Seq::empty() }
    } else {
        let head = rewrite_first(ts, (k - 1) as nat, used, pad);
        let last = rewrite(ts[k - 1], used + head.fresh.len(), pad);
        RewrittenAll { trees: head.trees.push(last.tree), fresh: head.fresh + last.fresh }
    }
}

/// The text of one decimal digit.
fn digit_text(d: u128) -> (out: &'static str)
    requires
        d < 10,
    ensures
        out@ == seq![digit(d as nat)],
{
    proof {
        reveal_strlit("0");
        reveal_strlit("1");
        reveal_strlit("2");
        reveal_strlit("3");
        reveal_strlit("4");
        reveal_strlit("5");
        reveal_strlit("6");
        reveal_strlit("7");
        reveal_strlit("8");
        reveal_strlit("9");
    }
    let out = if d == 0 {
        "0"
    } else if d == 1 {
        "1"
    } else if d == 2 {
        "2"
    } else if d == 3 {
        "3"
    } else if d == 4 {
        "4"
    } else if d == 5 {
        "5"
    } else if d == 6 {
        "6"
    } else if d == 7 {
        "7"
    } else if d == 8 {
        "8"
    } else {
        "9"
    };
    assert(out@ =~= seq![digit(d as nat)]);
    out
}

/// A number written in decimal.
pub fn decimal_text(n: u128) -> (out: String)
    ensures
        out@ == decimal(n as nat),
    decreases n,
{
    if n < 10 {
        String::from_str(digit_text(n))
    } else {
        let head = decimal_text(n / 10);
        let out = head.concat(digit_text(n % 10));
        assert(out@ =~= decimal((n / 10) as nat).push(digit((n % 10) as nat)));
        out
    }
}

/// The name of the `n`-th introduced type parameter, with `pad` zeros.
pub fn fresh_ident(pad: usize, n: u128) -> (out: String)
    ensures
        out@ == fresh_name(pad as nat, n as nat),
{
    proof {
        reveal_strlit("_T");
    }
    let mut out = String::from_str("_T");
    assert(out@ =~= seq!['_', 'T'] + zeros(0));
    let mut i: usize = 0;
    while i < pad
        invariant
            i <= pad,
            out@ == seq!['_', 'T'] + zeros(i as nat),
        decreases pad - i,
    {
        proof {
            reveal_strlit("0");
        }
        out = out.concat("0");
        assert("0"@ =~= seq!['0']);
        assert(out@ =~= seq!['_', 'T'] + zeros((i + 1) as nat));
        i += 1;
    }
    let digits = decimal_text(n);
    out.concat(digits.as_str())
}

/// The rewrite in progress: the generics that collect the introduced
/// parameters, and how many names have been given out.
pub struct ImplTraitsIntoGenerics {
    generics: Generics,
    counter: usize,
    padding: usize,
}

impl ImplTraitsIntoGenerics {
    /// The generics collected so far.
    pub closed spec fn collected(&self) -> GenericsView {
        self.generics@
    }

    /// How many names have been given out.
    pub closed spec fn used(&self) -> nat {
        self.counter as nat
    }

    /// How many zeros stand in each name.
    pub closed spec fn pad(&self) -> nat {
        self.padding as nat
    }

    /// No more names were given out than parameters are held.
    pub closed spec fn wf(&self) -> bool {
        self.counter <= self.generics.params.len()
    }

    /// A rewrite that adds to `generics` and has given out no name yet. Its
    /// names will hold `padding` zeros.
    pub fn new(generics: Generics, padding: usize) -> (out: Self)
        ensures
            out.wf(),
            out.used() == 0,
            out.pad() == padding,
            out.collected() == generics@,
    {
        Self { generics, counter: 0, padding }
    }

    /// Ends the rewrite and hands back the generics.
    pub fn into_generics(self) -> (out: Generics)
        ensures
            out@ == self.collected(),
    {
        self.generics
    }

    /// Rewrites each of `ts` in turn.
    pub fn rewritten_all(&mut self, ts: &Vec<TypeExpr>) -> (out: Vec<TypeExpr>)
        requires
            old(self).wf(),
        ensures
            final(self).wf(),
            final(self).pad() == old(self).pad(),
            trees_of(out@) == rewrite_first(trees_of(ts@), ts.len() as nat, old(self).used(), old(self).pad()).trees,
            final(self).collected().params == old(self).collected().params + rewrite_first(trees_of(ts@), ts.len() as nat, old(self).used(), old(self).pad()).fresh,
            final(self).collected().where_clause == old(self).collected().where_clause,
            final(self).used() == old(self).used() + rewrite_first(trees_of(ts@), ts.len() as nat, old(self).used(), old(self).pad()).fresh.len(),
        decreases ts,
    {
        let ghost trees = trees_of(ts@);
        let ghost start = self.used();
        let ghost pad = self.pad();
        let mut out: Vec<TypeExpr> = Vec::new();
        let mut i: usize = 0;
        assert(trees_of(out@) =~= Seq::empty());
        assert(self.collected().params + Seq::empty() =~= self.collected().params);
        while i < ts.len()
            invariant
                i <= ts.len(),
                self.wf(),
                self.pad() == pad,
                pad == old(self).pad(),
                trees == trees_of(ts@),
                start == old(self).used(),
                trees_of(out@) == rewrite_first(trees, i as nat, start, pad).trees,
                self.collected().params == old(self).collected().params + rewrite_first(trees, i as nat, start, pad).fresh,
                self.collected().where_clause == old(self).collected().where_clause,
                self.used() == start + rewrite_first(trees, i as nat, start, pad).fresh.len(),
            decreases ts.len() - i,
        {
            let ghost head = rewrite_first(trees, i as nat, start, pad);
            let ghost last = rewrite(trees[i as int], start + head.fresh.len(), pad);
            let item = self.rewritten(&ts[i]);
            proof {
                assert(trees[i as int] == tree_of(ts[i as int]));
                assert(trees_of(out@.push(item)) =~= trees_of(out@).push(item@));
                assert(old(self).collected().params + head.fresh + last.fresh =~= old(
                    self,
                ).collected().params + (head.fresh + last.fresh));
            }
            out.push(item);
            i += 1;
        }
        out
    }

    /// A copy of `node` in which each existential is replaced by the name of
    /// a new type parameter; the parameters are added to the generics.
    pub fn rewritten(&mut self, node: &TypeExpr) -> (out: TypeExpr)
        requires
            old(self).wf(),
        ensures
            final(self).wf(),
            final(self).pad() == old(self).pad(),
            out@ == rewrite(node@, old(self).used(), old(self).pad()).tree,
            final(self).collected().params == old(self).collected().params + rewrite(node@, old(self).used(), old(self).pad()).fresh,
            final(self).collected().where_clause == old(self).collected().where_clause,
            final(self).used() == old(self).used() + rewrite(node@, old(self).used(), old(self).pad()).fresh.len(),
        decreases node,
    {
        proof {
            lemma_tree_of_children(*node);
        }
        let ghost before = self.collected().params;
        let out = match node {
            TypeExpr::Path { name, args } => {
                let args = self.rewritten_all(args);
                TypeExpr::Path { name: name.clone(), args }
            },
            TypeExpr::Reference { scope, mutable, inner } => {
                let inner = self.rewritten(inner);
                TypeExpr::Reference { scope: copy_text(scope), mutable: *mutable, inner: Box::new(inner) }
            },
            TypeExpr::Parenthesized { inner } => {
                let inner = self.rewritten(inner);
                TypeExpr::Parenthesized { inner: Box::new(inner) }
            },
            TypeExpr::Array { elem, len } => {
                let elem = self.rewritten(elem);
                TypeExpr::Array { elem: Box::new(elem), len: len.clone() }
            },
            TypeExpr::Tuple { elems } => {
                let elems = self.rewritten_all(elems);
                TypeExpr::Tuple { elems }
            },
            TypeExpr::FunctionPointer { inputs, output } => {
                let ghost a = rewrite_first(
                    trees_of(inputs@),
                    inputs.len() as nat,
                    self.used(),
                    self.pad(),
                );
                let ghost b = rewrite(tree_of(**output), self.used() + a.fresh.len(), self.pad());
                let inputs = self.rewritten_all(inputs);
                let output = self.rewritten(output);
                assert(before + a.fresh + b.fresh =~= before + (a.fresh + b.fresh));
                TypeExpr::FunctionPointer { inputs, output: Box::new(output) }
            },
            TypeExpr::DynamicCapability { bounds } => {
                let bounds = self.rewritten_all(bounds);
                TypeExpr::DynamicCapability { bounds }
            },
            TypeExpr::AnonymousExistential { bounds } => {
                let ghost r = rewrite_first(
                    trees_of(bounds@),
                    bounds.len() as nat,
                    self.used(),
                    self.pad(),
                );
                let bounds = self.rewritten_all(bounds);
                let ident = fresh_ident(self.padding, self.counter as u128 + 1);
                let param = GenericParam {
                    kind: ParamKind::Type,
                    name: ident.clone(),
                    bounds,
                    const_type: None,
                };
                proof {
                    assert(params_of(self.generics.params@.push(param)) =~= params_of(
                        self.generics.params@,
                    ).push(param@));
                    assert(before + r.fresh.push(param@) =~= (before + r.fresh).push(param@));
                }
                self.generics.params.push(param);
                // The parameters held are counted in a `usize`, and no more
                // names were given out than that: the counter cannot overflow.
                let held = self.generics.params.len();
                assert(self.counter < held);
                self.counter = self.counter + 1;
                let args: Vec<TypeExpr> = Vec::new();
                assert(trees_of(args@) =~= Seq::empty());
                TypeExpr::Path { name: ident, args }
            },
            TypeExpr::ScopeTag { name } => {
                assert(before + Seq::empty() =~= before);
                TypeExpr::ScopeTag { name: name.clone() }
            },
            TypeExpr::Member { base, name, args } => {
                let ghost a = rewrite(tree_of(**base), self.used(), self.pad());
                let ghost b = rewrite_first(
                    trees_of(args@),
                    args.len() as nat,
                    self.used() + a.fresh.len(),
                    self.pad(),
                );
                let base = self.rewritten(base);
                let args = self.rewritten_all(args);
                assert(before + a.fresh + b.fresh =~= before + (a.fresh + b.fresh));
                TypeExpr::Member { base: Box::new(base), name: name.clone(), args }
            },
            TypeExpr::Verbatim { text, parts } => {
                let parts = self.rewritten_all(parts);
                TypeExpr::Verbatim { text: text.clone(), parts }
            },
        };
        proof {
            lemma_tree_of_children(out);
        }
        out
    }

    /// Replaces `node` by its rewrite.
    pub fn visit_type_mut(&mut self, node: &mut TypeExpr)
        requires
            old(self).wf(),
        ensures
            final(self).wf(),
            final(self).pad() == old(self).pad(),
            final(node)@ == rewrite(old(node)@, old(self).used(), old(self).pad()).tree,
            final(self).collected().params == old(self).collected().params + rewrite(old(node)@, old(self).used(), old(self).pad()).fresh,
            final(self).collected().where_clause == old(self).collected().where_clause,
            final(self).used() == old(self).used() + rewrite(old(node)@, old(self).used(), old(self).pad()).fresh.len(),
    {
        let out = self.rewritten(node);
        *node = out;
    }
}

} // verus!
