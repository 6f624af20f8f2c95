//! Bounds written at a parameter move into the constraint clause.

use vstd::prelude::*;
use crate::generics::{
    clause_of, params_of, predicates_of, GenericParam, GenericParamView, ParamKind, Predicate,
    PredicateView,
};
use crate::types::{lemma_tree_of_children, trees_of, TypeExpr, TypeTree};

verus! {

/// Whether the parameter carries bounds that move: a scope tag or a type
/// with at least one bound.
pub open spec fn has_inline_bounds(p: GenericParamView) -> bool {
    p.kind != ParamKind::Constant && p.bounds.len() > 0
}

/// The predicate that says of the parameter what its bounds said.
pub open spec fn predicate_from(p: GenericParamView) -> PredicateView {
    if p.kind == ParamKind::ScopeTag {
        PredicateView::ScopeTag { tag: p.name, bounds: p.bounds }
    } else {
        PredicateView::Type {
            bounded: TypeTree::Path { name: p.name, args: Seq::empty() },
            bounds: p.bounds,
        }
    }
}

/// The parameter without the bounds that move.
pub open spec fn without_bounds(p: GenericParamView) -> GenericParamView {
    if has_inline_bounds(p) {
        GenericParamView { bounds: Seq::empty(), ..p }
    } else {
        p
    }
}

/// The parameters, each without the bounds that move.
pub open spec fn all_without_bounds(ps: Seq<GenericParamView>) -> Seq<GenericParamView> {
    ps.map_values(|p: GenericParamView| without_bounds(p))
}

/// One predicate for each parameter that carries bounds, in the parameters'
/// order.
pub open spec fn moved_predicates(ps: Seq<GenericParamView>) -> Seq<PredicateView> {
    ps.filter(|p: GenericParamView| has_inline_bounds(p)).map_values(
        |p: GenericParamView| predicate_from(p),
    )
}

/// The predicates of a constraint clause; none where there is no clause.
pub open spec fn predicates_in(clause: Option<Seq<PredicateView>>) -> Seq<PredicateView> {
    match clause {
        Some(ps) => ps,
        None => Seq::empty(),
    }
}

/// Moves the bounds of each scope tag and type in `params` to the end of
/// `where_clause`, one predicate for each parameter that had bounds. A
/// clause is made where there was none.
pub fn move_bounds_to_where_clause(
    params: &mut Vec<GenericParam>,
    where_clause: &mut Option<Vec<Predicate>>,
)
    ensures
        params_of(final(params)@) == all_without_bounds(params_of(old(params)@)),
        clause_of(*final(where_clause)) == Some(
            predicates_in(clause_of(*old(where_clause))) + moved_predicates(
                params_of(old(params)@),
            ),
        ),
{
    let ghost all = params_of(params@);
    let ghost existing = predicates_in(clause_of(*where_clause));
    let ghost movable = |p: GenericParamView| has_inline_bounds(p);
    let ghost to_predicate = |p: GenericParamView| predicate_from(p);
    let mut predicates: Vec<Predicate> = match where_clause.take() {
        Some(ps) => ps,
        None => Vec::new(),
    };
    let mut cleared: Vec<GenericParam> = Vec::new();
    let mut i: usize = 0;
    assert(all.take(0) =~= Seq::empty());
    assert(predicates_of(predicates@) =~= existing + Seq::<GenericParamView>::empty().filter(
        movable,
    ).map_values(to_predicate));
    assert(params_of(cleared@) =~= all_without_bounds(all.take(0)));
    while i < params.len()
        invariant
            i <= params.len(),
            *params == *old(params),
            all == params_of(params@),
            movable == |p: GenericParamView| has_inline_bounds(p),
            to_predicate == |p: GenericParamView| predicate_from(p),
            params_of(cleared@) == all_without_bounds(all.take(i as int)),
            predicates_of(predicates@) == existing + all.take(i as int).filter(movable).map_values(
                to_predicate,
            ),
        decreases params.len() - i,
    {
        let param = params[i].clone();
        let ghost seen = all.take(i as int);
        proof {
            assert(all.take(i + 1) =~= seen.push(param@));
            seen.lemma_filter_push(param@, movable);
            assert(all_without_bounds(seen.push(param@)) =~= all_without_bounds(seen).push(
                without_bounds(param@),
            ));
            assert(seen.filter(movable).push(param@).map_values(to_predicate) =~= seen.filter(
                movable,
            ).map_values(to_predicate).push(predicate_from(param@)));
        }
        let movable_here = match param.kind {
            ParamKind::Constant => false,
            _ => param.bounds.len() > 0,
        };
        if movable_here {
            let GenericParam { kind, name, bounds, const_type } = param;
            let predicate = match kind {
                ParamKind::ScopeTag => Predicate::ScopeTag { tag: name.clone(), bounds },
                _ => {
                    let args: Vec<TypeExpr> = Vec::new();
                    assert(trees_of(args@) =~= Seq::empty());
                    let bounded = TypeExpr::Path { name: name.clone(), args };
                    proof {
                        lemma_tree_of_children(bounded);
                    }
                    Predicate::Type { bounded, bounds }
                },
            };
            let bare = GenericParam { kind, name, bounds: Vec::new(), const_type };
            assert(trees_of(bare.bounds@) =~= Seq::empty());
            assert(predicates_of(predicates@.push(predicate)) =~= predicates_of(predicates@).push(
                predicate@,
            ));
            assert(predicate@ == predicate_from(param@));
            assert((existing + seen.filter(movable).map_values(to_predicate)).push(predicate@)
                =~= existing + seen.filter(movable).map_values(to_predicate).push(predicate@));
            assert(params_of(cleared@.push(bare)) =~= params_of(cleared@).push(bare@));
            predicates.push(predicate);
            cleared.push(bare);
        } else {
            assert(params_of(cleared@.push(param)) =~= params_of(cleared@).push(param@));
            cleared.push(param);
        }
        i += 1;
    }
    assert(all.take(i as int) =~= all);
    *params = cleared;
    *where_clause = Some(predicates);
}

} // verus!
