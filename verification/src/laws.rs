//! Structural laws of the rewrite chain: trait elimination, literal
//! annihilation, and idempotence of the full chain.

use vstd::prelude::*;

use crate::condition::SpecCondition;
use crate::condition::SpecValue;
use crate::model::SpecTraitPattern;
use crate::model::TraitResolver;
use crate::processing::spec_compact;
use crate::processing::spec_conjoin_patterns;
use crate::processing::spec_contains_equal;
use crate::processing::spec_expand_traits;
use crate::processing::spec_pattern_condition;
use crate::processing::spec_pipeline;
use crate::processing::spec_suppress_comparisons;
use crate::processing::spec_suppress_literals;
use crate::processing::spec_wrap_fact;

verus! {

/// No `Trait(..)` node anywhere in the tree.
pub open spec fn trait_free(c: SpecCondition) -> bool
    decreases c,
{
    match c {
        SpecCondition::Trait(_, _) => false,
        SpecCondition::Fact(d) => trait_free(*d),
        SpecCondition::Not(d) => trait_free(*d),
        SpecCondition::And(a, b) => trait_free(*a) && trait_free(*b),
        SpecCondition::Or(a, b) => trait_free(*a) && trait_free(*b),
        _ => true,
    }
}

/// No `True` or `False` literal as a side of any conjunction in the tree.
pub open spec fn and_literal_free(c: SpecCondition) -> bool
    decreases c,
{
    match c {
        SpecCondition::And(a, b) => {
            &&& *a != SpecCondition::True
            &&& *a != SpecCondition::False
            &&& *b != SpecCondition::True
            &&& *b != SpecCondition::False
            &&& and_literal_free(*a)
            &&& and_literal_free(*b)
        },
        SpecCondition::Or(a, b) => and_literal_free(*a) && and_literal_free(*b),
        SpecCondition::Fact(d) => and_literal_free(*d),
        SpecCondition::Trait(_, d) => and_literal_free(*d),
        SpecCondition::Not(d) => and_literal_free(*d),
        _ => true,
    }
}

/// No comparison in the tree that comparison suppression would decide.
pub open spec fn comparison_free(c: SpecCondition) -> bool
    decreases c,
{
    match c {
        SpecCondition::Equal(v1, v2) => {
            &&& !(v1 is Data && v2 is Data)
            &&& !(v1 is Attribute && v2 is Attribute && v1->Attribute_0 == v2->Attribute_0)
            &&& !(v1 is Binding && v2 is Attribute && v1->Binding_0 == v2->Attribute_0)
        },
        SpecCondition::LessThan(v1, v2) => !(v1 is Data && v2 is Data),
        SpecCondition::GreaterThan(v1, v2) => !(v1 is Data && v2 is Data),
        SpecCondition::Fact(d) => comparison_free(*d),
        SpecCondition::Trait(_, d) => comparison_free(*d),
        SpecCondition::Not(d) => comparison_free(*d),
        SpecCondition::And(a, b) => comparison_free(*a) && comparison_free(*b),
        SpecCondition::Or(a, b) => comparison_free(*a) && comparison_free(*b),
        _ => true,
    }
}

proof fn lemma_conjoin_trait_free(base: SpecCondition, pats: Seq<SpecTraitPattern>)
    requires
        trait_free(base),
    ensures
        trait_free(spec_conjoin_patterns(base, pats)),
    decreases pats.len(),
{
    if pats.len() == 0 {
    } else {
        assert(trait_free(spec_pattern_condition(pats[0])));
        lemma_conjoin_trait_free(
            SpecCondition::And(Box::new(base), Box::new(spec_pattern_condition(pats[0]))),
            pats.skip(1),
        );
    }
}

/// Trait elimination: after trait expansion, no `Trait(..)` node remains.
pub proof fn lemma_expansion_eliminates_traits<R: TraitResolver>(res: R, c: SpecCondition)
    ensures
        trait_free(spec_expand_traits(res, c)),
    decreases c,
{
    match c {
        SpecCondition::Trait(name, d) => {
            lemma_expansion_eliminates_traits(res, *d);
            lemma_conjoin_trait_free(spec_expand_traits(res, *d), res.spec_resolve(name));
        },
        SpecCondition::Fact(d) => lemma_expansion_eliminates_traits(res, *d),
        SpecCondition::Not(d) => lemma_expansion_eliminates_traits(res, *d),
        SpecCondition::And(a, b) => {
            lemma_expansion_eliminates_traits(res, *a);
            lemma_expansion_eliminates_traits(res, *b);
        },
        SpecCondition::Or(a, b) => {
            lemma_expansion_eliminates_traits(res, *a);
            lemma_expansion_eliminates_traits(res, *b);
        },
        _ => {},
    }
}

/// A tree without trait scopes is a fixpoint of trait expansion.
pub proof fn lemma_expansion_fixpoint<R: TraitResolver>(res: R, c: SpecCondition)
    requires
        trait_free(c),
    ensures
        spec_expand_traits(res, c) == c,
    decreases c,
{
    match c {
        SpecCondition::Fact(d) => lemma_expansion_fixpoint(res, *d),
        SpecCondition::Not(d) => lemma_expansion_fixpoint(res, *d),
        SpecCondition::And(a, b) => {
            lemma_expansion_fixpoint(res, *a);
            lemma_expansion_fixpoint(res, *b);
        },
        SpecCondition::Or(a, b) => {
            lemma_expansion_fixpoint(res, *a);
            lemma_expansion_fixpoint(res, *b);
        },
        _ => {},
    }
}

proof fn lemma_compact_trait_free(c: SpecCondition)
    requires
        trait_free(c),
    ensures
        trait_free(spec_compact(c)),
    decreases c,
{
    match c {
        SpecCondition::And(a, b) => match (*a, *b) {
            (SpecCondition::Present(v), other) => {
                lemma_compact_trait_free(other);
            },
            (other, SpecCondition::Present(v)) => {
                lemma_compact_trait_free(other);
            },
            (x, y) => {
                lemma_compact_trait_free(x);
                lemma_compact_trait_free(y);
            },
        },
        SpecCondition::Fact(d) => lemma_compact_trait_free(*d),
        SpecCondition::Trait(_, d) => {},
        SpecCondition::Not(d) => lemma_compact_trait_free(*d),
        SpecCondition::Or(a, b) => {
            lemma_compact_trait_free(*a);
            lemma_compact_trait_free(*b);
        },
        _ => {},
    }
}

/// No conjunction in the tree that present/equal compaction would rewrite:
/// a `Present` side stands first and its sibling does not already constrain
/// its value through an equality.
pub open spec fn compacted(c: SpecCondition) -> bool
    decreases c,
{
    match c {
        SpecCondition::And(a, b) => {
            &&& match (*a, *b) {
                (SpecCondition::Present(v), o) => !spec_contains_equal(o, v),
                (o, SpecCondition::Present(v)) => false,
                _ => true,
            }
            &&& compacted(*a)
            &&& compacted(*b)
        },
        SpecCondition::Or(a, b) => compacted(*a) && compacted(*b),
        SpecCondition::Fact(d) => compacted(*d),
        SpecCondition::Trait(_, d) => compacted(*d),
        SpecCondition::Not(d) => compacted(*d),
        _ => true,
    }
}

proof fn lemma_compact_contains_equal(c: SpecCondition, v: SpecValue)
    ensures
        spec_contains_equal(spec_compact(c), v) == spec_contains_equal(c, v),
    decreases c,
{
    reveal_with_fuel(spec_contains_equal, 3);
    reveal_with_fuel(spec_compact, 2);
    match c {
        SpecCondition::And(a, b) => match (*a, *b) {
            (SpecCondition::Present(w), other) => {
                lemma_compact_contains_equal(other, v);
            },
            (other, SpecCondition::Present(w)) => {
                lemma_compact_contains_equal(other, v);
            },
            (x, y) => {
                lemma_compact_contains_equal(x, v);
                lemma_compact_contains_equal(y, v);
            },
        },
        SpecCondition::Fact(d) => lemma_compact_contains_equal(*d, v),
        SpecCondition::Or(a, b) => {
            lemma_compact_contains_equal(*a, v);
            lemma_compact_contains_equal(*b, v);
        },
        _ => {},
    }
}

proof fn lemma_compact_keeps_presence_shape(c: SpecCondition)
    ensures
        (spec_compact(c) is Present) == (c is Present),
    decreases c,
{
    reveal_with_fuel(spec_compact, 2);
    reveal_with_fuel(spec_contains_equal, 2);
    match c {
        SpecCondition::And(a, b) => match (*a, *b) {
            (SpecCondition::Present(v), other) => {
                if spec_contains_equal(other, v) {
                    lemma_compact_keeps_presence_shape(other);
                }
            },
            (other, SpecCondition::Present(v)) => {
                if spec_contains_equal(other, v) {
                    lemma_compact_keeps_presence_shape(other);
                }
            },
            _ => {},
        },
        _ => {},
    }
}

/// Compaction leaves no rewritable conjunction behind: its output is a
/// fixpoint of the pass.
pub proof fn lemma_compact_compacted(c: SpecCondition)
    ensures
        compacted(spec_compact(c)),
    decreases c,
{
    reveal_with_fuel(compacted, 3);
    reveal_with_fuel(spec_compact, 2);
    reveal_with_fuel(spec_contains_equal, 2);
    match c {
        SpecCondition::And(a, b) => match (*a, *b) {
            (SpecCondition::Present(v), other) => {
                lemma_compact_compacted(other);
                if spec_contains_equal(other, v) {
                } else {
                    lemma_compact_contains_equal(other, v);
                }
            },
            (other, SpecCondition::Present(v)) => {
                lemma_compact_compacted(other);
                if spec_contains_equal(other, v) {
                } else {
                    lemma_compact_contains_equal(other, v);
                }
            },
            (x, y) => {
                lemma_compact_compacted(x);
                lemma_compact_compacted(y);
                lemma_compact_keeps_presence_shape(x);
                lemma_compact_keeps_presence_shape(y);
            },
        },
        SpecCondition::Fact(d) => lemma_compact_compacted(*d),
        SpecCondition::Trait(_, d) => lemma_compact_compacted(*d),
        SpecCondition::Not(d) => lemma_compact_compacted(*d),
        SpecCondition::Or(a, b) => {
            lemma_compact_compacted(*a);
            lemma_compact_compacted(*b);
        },
        _ => {},
    }
}

/// A compacted tree is a fixpoint of present/equal compaction.
pub proof fn lemma_compacted_fixpoint(c: SpecCondition)
    requires
        compacted(c),
    ensures
        spec_compact(c) == c,
    decreases c,
{
    reveal_with_fuel(spec_compact, 2);
    reveal_with_fuel(compacted, 2);
    match c {
        SpecCondition::And(a, b) => match (*a, *b) {
            (SpecCondition::Present(v), other) => {
                lemma_compacted_fixpoint(other);
            },
            (other, SpecCondition::Present(v)) => {
                lemma_compacted_fixpoint(other);
            },
            (x, y) => {
                lemma_compacted_fixpoint(x);
                lemma_compacted_fixpoint(y);
            },
        },
        SpecCondition::Fact(d) => lemma_compacted_fixpoint(*d),
        SpecCondition::Trait(_, d) => lemma_compacted_fixpoint(*d),
        SpecCondition::Not(d) => lemma_compacted_fixpoint(*d),
        SpecCondition::Or(a, b) => {
            lemma_compacted_fixpoint(*a);
            lemma_compacted_fixpoint(*b);
        },
        _ => {},
    }
}

proof fn lemma_suppress_comparisons_trait_free(c: SpecCondition)
    requires
        trait_free(c),
    ensures
        spec_suppress_comparisons(c) matches Some(y) ==> trait_free(y),
    decreases c,
{
    match c {
        SpecCondition::Fact(d) => lemma_suppress_comparisons_trait_free(*d),
        SpecCondition::Not(d) => lemma_suppress_comparisons_trait_free(*d),
        SpecCondition::And(a, b) => {
            lemma_suppress_comparisons_trait_free(*a);
            lemma_suppress_comparisons_trait_free(*b);
        },
        SpecCondition::Or(a, b) => {
            lemma_suppress_comparisons_trait_free(*a);
            lemma_suppress_comparisons_trait_free(*b);
        },
        _ => {},
    }
}

proof fn lemma_suppress_literals_trait_free(c: SpecCondition)
    requires
        trait_free(c),
    ensures
        spec_suppress_literals(c) matches Some(y) ==> trait_free(y),
    decreases c,
{
    match c {
        SpecCondition::Fact(d) => lemma_suppress_literals_trait_free(*d),
        SpecCondition::Not(d) => lemma_suppress_literals_trait_free(*d),
        SpecCondition::And(a, b) => {
            lemma_suppress_literals_trait_free(*a);
            lemma_suppress_literals_trait_free(*b);
        },
        SpecCondition::Or(a, b) => {
            lemma_suppress_literals_trait_free(*a);
            lemma_suppress_literals_trait_free(*b);
        },
        _ => {},
    }
}

/// Whatever comparison suppression returns contains no decidable comparison.
pub proof fn lemma_suppress_comparisons_clean(c: SpecCondition)
    ensures
        spec_suppress_comparisons(c) matches Some(y) ==> comparison_free(y),
    decreases c,
{
    match c {
        SpecCondition::Fact(d) => lemma_suppress_comparisons_clean(*d),
        SpecCondition::Trait(_, d) => lemma_suppress_comparisons_clean(*d),
        SpecCondition::Not(d) => lemma_suppress_comparisons_clean(*d),
        SpecCondition::And(a, b) => {
            lemma_suppress_comparisons_clean(*a);
            lemma_suppress_comparisons_clean(*b);
        },
        SpecCondition::Or(a, b) => {
            lemma_suppress_comparisons_clean(*a);
            lemma_suppress_comparisons_clean(*b);
        },
        _ => {},
    }
}

/// A tree without decidable comparisons is a fixpoint of comparison suppression.
pub proof fn lemma_suppress_comparisons_fixpoint(c: SpecCondition)
    requires
        comparison_free(c),
    ensures
        spec_suppress_comparisons(c) == Some(c),
    decreases c,
{
    match c {
        SpecCondition::Fact(d) => lemma_suppress_comparisons_fixpoint(*d),
        SpecCondition::Trait(_, d) => lemma_suppress_comparisons_fixpoint(*d),
        SpecCondition::Not(d) => lemma_suppress_comparisons_fixpoint(*d),
        SpecCondition::And(a, b) => {
            lemma_suppress_comparisons_fixpoint(*a);
            lemma_suppress_comparisons_fixpoint(*b);
        },
        SpecCondition::Or(a, b) => {
            lemma_suppress_comparisons_fixpoint(*a);
            lemma_suppress_comparisons_fixpoint(*b);
        },
        _ => {},
    }
}

proof fn lemma_suppress_literals_comparison_free(c: SpecCondition)
    requires
        comparison_free(c),
    ensures
        spec_suppress_literals(c) matches Some(y) ==> comparison_free(y),
    decreases c,
{
    match c {
        SpecCondition::Fact(d) => lemma_suppress_literals_comparison_free(*d),
        SpecCondition::Trait(_, d) => lemma_suppress_literals_comparison_free(*d),
        SpecCondition::Not(d) => lemma_suppress_literals_comparison_free(*d),
        SpecCondition::And(a, b) => {
            lemma_suppress_literals_comparison_free(*a);
            lemma_suppress_literals_comparison_free(*b);
        },
        SpecCondition::Or(a, b) => {
            lemma_suppress_literals_comparison_free(*a);
            lemma_suppress_literals_comparison_free(*b);
        },
        _ => {},
    }
}

/// Literal annihilation at one stage: whatever boolean literal suppression
/// returns has no `True` or `False` side in any conjunction.
pub proof fn lemma_suppress_literals_annihilates(c: SpecCondition)
    ensures
        spec_suppress_literals(c) matches Some(y) ==> and_literal_free(y),
    decreases c,
{
    match c {
        SpecCondition::Fact(d) => lemma_suppress_literals_annihilates(*d),
        SpecCondition::Trait(_, d) => lemma_suppress_literals_annihilates(*d),
        SpecCondition::Not(d) => lemma_suppress_literals_annihilates(*d),
        SpecCondition::And(a, b) => {
            lemma_suppress_literals_annihilates(*a);
            lemma_suppress_literals_annihilates(*b);
        },
        SpecCondition::Or(a, b) => {
            lemma_suppress_literals_annihilates(*a);
            lemma_suppress_literals_annihilates(*b);
        },
        _ => {},
    }
}

/// A tree without literal conjunction sides is a fixpoint of literal suppression.
pub proof fn lemma_suppress_literals_fixpoint(c: SpecCondition)
    requires
        and_literal_free(c),
    ensures
        spec_suppress_literals(c) == Some(c),
    decreases c,
{
    match c {
        SpecCondition::Fact(d) => lemma_suppress_literals_fixpoint(*d),
        SpecCondition::Trait(_, d) => lemma_suppress_literals_fixpoint(*d),
        SpecCondition::Not(d) => lemma_suppress_literals_fixpoint(*d),
        SpecCondition::And(a, b) => {
            lemma_suppress_literals_fixpoint(*a);
            lemma_suppress_literals_fixpoint(*b);
        },
        SpecCondition::Or(a, b) => {
            lemma_suppress_literals_fixpoint(*a);
            lemma_suppress_literals_fixpoint(*b);
        },
        _ => {},
    }
}

/// Literal annihilation for the full chain: when the chain returns a
/// condition, no `True` or `False` literal remains as a side of a conjunction.
pub proof fn lemma_pipeline_literal_free<R: TraitResolver>(res: R, c: SpecCondition)
    ensures
        spec_pipeline(res, c) matches Some(out) ==> and_literal_free(out),
{
    let p = spec_compact(spec_expand_traits(res, c));
    match spec_suppress_comparisons(p) {
        None => {},
        Some(s) => {
            lemma_suppress_literals_annihilates(s);
        },
    }
}

/// The chain on a conjunction of three trait scopes, as a function of the
/// names alone: a present-only trait, a trait with one valued and one
/// present-only pattern, and another present-only trait, each scoping an
/// equality over its own attribute. Expansion replaces every trait scope by
/// its pattern conjuncts and leaves no trait node; the full chain then
/// absorbs every pattern-derived presence check into the sibling equality
/// over the same attribute, decides no comparison, and wraps the result in a
/// fact scope.
pub proof fn lemma_pipeline_nested_traits<R: TraitResolver>(
    res: R,
    obj_trait: Seq<u8>,
    nc_trait: Seq<u8>,
    ts_trait: Seq<u8>,
    obj_attr: Seq<u8>,
    ft_attr: Seq<u8>,
    val_attr: Seq<u8>,
    ts_attr: Seq<u8>,
    obj_val: Seq<u8>,
    ft_val: Seq<u8>,
    name_bind: Seq<u8>,
    ts_bind: Seq<u8>,
)
    requires
        res.spec_resolve(obj_trait) == seq![SpecTraitPattern { name: obj_attr, value: None }],
        res.spec_resolve(nc_trait) == seq![
            SpecTraitPattern { name: ft_attr, value: Some(ft_val) },
            SpecTraitPattern { name: val_attr, value: None },
        ],
        res.spec_resolve(ts_trait) == seq![SpecTraitPattern { name: ts_attr, value: None }],
    ensures
        ({
            let eq_obj = SpecCondition::Equal(
                SpecValue::Attribute(obj_attr),
                SpecValue::Data(obj_val),
            );
            let eq_val = SpecCondition::Equal(
                SpecValue::Attribute(val_attr),
                SpecValue::Binding(name_bind),
            );
            let eq_ft = SpecCondition::Equal(
                SpecValue::Attribute(ft_attr),
                SpecValue::Data(ft_val),
            );
            let eq_ts = SpecCondition::Equal(
                SpecValue::Attribute(ts_attr),
                SpecValue::Binding(ts_bind),
            );
            let query = SpecCondition::And(
                Box::new(SpecCondition::And(
                    Box::new(SpecCondition::Trait(obj_trait, Box::new(eq_obj))),
                    Box::new(SpecCondition::Trait(nc_trait, Box::new(eq_val))),
                )),
                Box::new(SpecCondition::Trait(ts_trait, Box::new(eq_ts))),
            );
            let expanded = SpecCondition::And(
                Box::new(SpecCondition::And(
                    Box::new(SpecCondition::And(
                        Box::new(eq_obj),
                        Box::new(SpecCondition::Present(SpecValue::Attribute(obj_attr))),
                    )),
                    Box::new(SpecCondition::And(
                        Box::new(SpecCondition::And(Box::new(eq_val), Box::new(eq_ft))),
                        Box::new(SpecCondition::Present(SpecValue::Attribute(val_attr))),
                    )),
                )),
                Box::new(SpecCondition::And(
                    Box::new(eq_ts),
                    Box::new(SpecCondition::Present(SpecValue::Attribute(ts_attr))),
                )),
            );
            let rewritten = SpecCondition::And(
                Box::new(SpecCondition::And(
                    Box::new(eq_obj),
                    Box::new(SpecCondition::And(Box::new(eq_val), Box::new(eq_ft))),
                )),
                Box::new(eq_ts),
            );
            spec_expand_traits(res, query) == expanded && trait_free(expanded) && spec_pipeline(
                res,
                query,
            ) == Some(SpecCondition::Fact(Box::new(rewritten)))
        }),
{
    let eq_obj = SpecCondition::Equal(SpecValue::Attribute(obj_attr), SpecValue::Data(obj_val));
    let eq_val = SpecCondition::Equal(
        SpecValue::Attribute(val_attr),
        SpecValue::Binding(name_bind),
    );
    let eq_ft = SpecCondition::Equal(SpecValue::Attribute(ft_attr), SpecValue::Data(ft_val));
    let eq_ts = SpecCondition::Equal(SpecValue::Attribute(ts_attr), SpecValue::Binding(ts_bind));
    let query = SpecCondition::And(
        Box::new(SpecCondition::And(
            Box::new(SpecCondition::Trait(obj_trait, Box::new(eq_obj))),
            Box::new(SpecCondition::Trait(nc_trait, Box::new(eq_val))),
        )),
        Box::new(SpecCondition::Trait(ts_trait, Box::new(eq_ts))),
    );

    // Expansion: conjoin each trait's patterns onto its expanded body.
    let pats_o = res.spec_resolve(obj_trait);
    let pats_n = res.spec_resolve(nc_trait);
    let pats_t = res.spec_resolve(ts_trait);
    let e1 = SpecCondition::And(
        Box::new(eq_obj),
        Box::new(SpecCondition::Present(SpecValue::Attribute(obj_attr))),
    );
    let e2 = SpecCondition::And(
        Box::new(SpecCondition::And(Box::new(eq_val), Box::new(eq_ft))),
        Box::new(SpecCondition::Present(SpecValue::Attribute(val_attr))),
    );
    let e3 = SpecCondition::And(
        Box::new(eq_ts),
        Box::new(SpecCondition::Present(SpecValue::Attribute(ts_attr))),
    );
    assert(spec_conjoin_patterns(eq_obj, pats_o) == e1) by {
        reveal_with_fuel(spec_conjoin_patterns, 2);
        assert(pats_o.skip(1) =~= Seq::<SpecTraitPattern>::empty());
    }
    assert(spec_conjoin_patterns(eq_val, pats_n) == e2) by {
        reveal_with_fuel(spec_conjoin_patterns, 3);
        assert(pats_n.skip(1)[0] == pats_n[1]);
        assert(pats_n.skip(1).skip(1) =~= Seq::<SpecTraitPattern>::empty());
    }
    assert(spec_conjoin_patterns(eq_ts, pats_t) == e3) by {
        reveal_with_fuel(spec_conjoin_patterns, 2);
        assert(pats_t.skip(1) =~= Seq::<SpecTraitPattern>::empty());
    }
    let expanded = SpecCondition::And(
        Box::new(SpecCondition::And(Box::new(e1), Box::new(e2))),
        Box::new(e3),
    );
    assert(spec_expand_traits(res, query) == expanded) by {
        reveal_with_fuel(spec_expand_traits, 4);
    }
    assert(trait_free(expanded)) by {
        reveal_with_fuel(trait_free, 6);
    }

    // Compaction: each pattern-derived presence check is absorbed by the
    // sibling equality over the same attribute.
    let inner = SpecCondition::And(Box::new(eq_val), Box::new(eq_ft));
    let rewritten = SpecCondition::And(
        Box::new(SpecCondition::And(Box::new(eq_obj), Box::new(inner))),
        Box::new(eq_ts),
    );
    assert(spec_compact(e1) == eq_obj) by {
        reveal_with_fuel(spec_compact, 3);
        reveal_with_fuel(spec_contains_equal, 2);
    }
    assert(spec_compact(e2) == inner) by {
        reveal_with_fuel(spec_compact, 3);
        reveal_with_fuel(spec_contains_equal, 3);
    }
    assert(spec_compact(e3) == eq_ts) by {
        reveal_with_fuel(spec_compact, 3);
        reveal_with_fuel(spec_contains_equal, 2);
    }
    assert(spec_compact(expanded) == rewritten) by {
        reveal_with_fuel(spec_compact, 3);
    }

    // Comparison suppression decides nothing: every equality mixes an
    // attribute reference with data or a binding.
    assert(spec_suppress_comparisons(rewritten) == Some(rewritten)) by {
        reveal_with_fuel(spec_suppress_comparisons, 5);
    }

    // No boolean literal stands anywhere.
    assert(spec_suppress_literals(rewritten) == Some(rewritten)) by {
        reveal_with_fuel(spec_suppress_literals, 5);
    }
    assert(spec_wrap_fact(rewritten) == SpecCondition::Fact(Box::new(rewritten)));
}

/// Idempotence of the full chain: when the chain returns a condition that is
/// itself a fixpoint of present/equal compaction, running the chain on that
/// output returns it unchanged. (Comparison suppression can expose a presence
/// check to a new sibling equality by dropping a decided comparison between
/// them, so its output is not always compacted; such outputs are left out.)
pub proof fn lemma_pipeline_idempotent<R: TraitResolver>(res: R, c: SpecCondition)
    requires
        match spec_suppress_comparisons(spec_compact(spec_expand_traits(res, c))) {
            Some(s) => match spec_suppress_literals(s) {
                Some(b) => spec_compact(b) == b,
                None => true,
            },
            None => true,
        },
    ensures
        spec_pipeline(res, c) matches Some(out) ==> spec_pipeline(res, out) == Some(out),
{
    let e = spec_expand_traits(res, c);
    let p = spec_compact(e);
    match spec_suppress_comparisons(p) {
        None => {},
        Some(s) => {
            match spec_suppress_literals(s) {
                None => {},
                Some(b) => {
                    let out = spec_wrap_fact(b);
                    // The surviving condition is trait-free, comparison-free,
                    // and literal-free.
                    lemma_expansion_eliminates_traits(res, c);
                    lemma_compact_trait_free(e);
                    lemma_suppress_comparisons_trait_free(p);
                    lemma_suppress_literals_trait_free(s);
                    lemma_suppress_comparisons_clean(p);
                    lemma_suppress_literals_comparison_free(s);
                    lemma_suppress_literals_annihilates(s);
                    assert(trait_free(b));
                    assert(comparison_free(b));
                    assert(and_literal_free(b));
                    assert(trait_free(out));
                    assert(comparison_free(out));
                    assert(and_literal_free(out));
                    // Each stage leaves the wrapped output unchanged.
                    lemma_expansion_fixpoint(res, out);
                    assert(spec_compact(out) == out);
                    lemma_suppress_comparisons_fixpoint(out);
                    lemma_suppress_literals_fixpoint(out);
                    assert(spec_wrap_fact(out) == out);
                },
            }
        },
    }
}

} // verus!
