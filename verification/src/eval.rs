//! A reference evaluator for conditions and the semantic-preservation law of
//! the rewrite chain.
//!
//! A model assigns to every value a presence flag and a denoted byte string.
//! A well-formed model denotes literal data by itself and treats data,
//! attribute references, and bindings as present, a binding standing for the
//! same-named attribute. An equality or order predicate holds when both
//! operands are present and their denotations compare accordingly; a trait
//! scope holds when its body and all the resolved patterns hold.

use vstd::prelude::*;

use crate::bytes::lex_lt;
use crate::condition::SpecCondition;
use crate::condition::SpecValue;
use crate::model::SpecTraitPattern;
use crate::model::TraitResolver;
use crate::processing::spec_compact;
use crate::processing::spec_conjoin_patterns;
use crate::processing::spec_contains_equal;
use crate::processing::spec_expand_traits;
use crate::processing::spec_pattern_condition;
use crate::processing::spec_pipeline;
use crate::processing::spec_suppress_comparisons;
use crate::processing::spec_suppress_literals;
use crate::processing::spec_wrap_fact;

verus! {

/// An assignment of facts, attributes, and bindings: which values are present
/// and what byte string each denotes.
pub struct Model {
    /// Whether a value is present in the scoped fact.
    pub present: spec_fn(SpecValue) -> bool,
    /// The byte string a value denotes.
    pub denote: spec_fn(SpecValue) -> Seq<u8>,
}

/// Well-formedness of a model: data denotes itself and is present, attribute
/// references and bindings are present, and a binding denotes the value of the
/// same-named attribute.
pub open spec fn model_wf(m: Model) -> bool {
    &&& forall|s: Seq<u8>| (#[trigger] (m.denote)(SpecValue::Data(s))) == s
    &&& forall|s: Seq<u8>| #[trigger] (m.present)(SpecValue::Data(s))
    &&& forall|n: Seq<u8>| #[trigger] (m.present)(SpecValue::Attribute(n))
    &&& forall|n: Seq<u8>| #[trigger] (m.present)(SpecValue::Binding(n))
    &&& forall|n: Seq<u8>|
        (#[trigger] (m.denote)(SpecValue::Binding(n))) == (m.denote)(SpecValue::Attribute(n))
}

/// Whether one trait pattern holds in a model.
pub open spec fn pattern_holds(m: Model, p: SpecTraitPattern) -> bool {
    match p.value {
        None => (m.present)(SpecValue::Attribute(p.name)),
        Some(v) => {
            &&& (m.present)(SpecValue::Attribute(p.name))
            &&& (m.present)(SpecValue::Data(v))
            &&& (m.denote)(SpecValue::Attribute(p.name)) == (m.denote)(SpecValue::Data(v))
        },
    }
}

/// Whether every pattern of a sequence holds in a model.
pub open spec fn patterns_hold(m: Model, pats: Seq<SpecTraitPattern>) -> bool
    decreases pats.len(),
{
    if pats.len() == 0 {
        true
    } else {
        pattern_holds(m, pats[0]) && patterns_hold(m, pats.skip(1))
    }
}

/// The reference evaluator: the truth value of a condition in a model, traits
/// being read through the resolver.
pub open spec fn eval<R: TraitResolver>(res: R, m: Model, c: SpecCondition) -> bool
    decreases c,
{
    match c {
        SpecCondition::Fact(d) => eval(res, m, *d),
        SpecCondition::Not(d) => !eval(res, m, *d),
        SpecCondition::And(a, b) => eval(res, m, *a) && eval(res, m, *b),
        SpecCondition::Or(a, b) => eval(res, m, *a) || eval(res, m, *b),
        SpecCondition::Trait(name, d) => eval(res, m, *d) && patterns_hold(
            m,
            res.spec_resolve(name),
        ),
        SpecCondition::Present(v) => (m.present)(v),
        SpecCondition::Equal(v1, v2) => (m.present)(v1) && (m.present)(v2) && (m.denote)(v1)
            == (m.denote)(v2),
        SpecCondition::LessThan(v1, v2) => (m.present)(v1) && (m.present)(v2) && lex_lt(
            (m.denote)(v1),
            (m.denote)(v2),
        ),
        SpecCondition::GreaterThan(v1, v2) => (m.present)(v1) && (m.present)(v2) && lex_lt(
            (m.denote)(v2),
            (m.denote)(v1),
        ),
        SpecCondition::True => true,
        SpecCondition::False => false,
    }
}

proof fn lemma_conjoin_eval<R: TraitResolver>(
    res: R,
    m: Model,
    base: SpecCondition,
    pats: Seq<SpecTraitPattern>,
)
    ensures
        eval(res, m, spec_conjoin_patterns(base, pats)) == (eval(res, m, base) && patterns_hold(
            m,
            pats,
        )),
    decreases pats.len(),
{
    if pats.len() == 0 {
    } else {
        let step = SpecCondition::And(
            Box::new(base),
            Box::new(spec_pattern_condition(pats[0])),
        );
        assert(eval(res, m, spec_pattern_condition(pats[0])) == pattern_holds(m, pats[0]));
        lemma_conjoin_eval(res, m, step, pats.skip(1));
    }
}

/// Trait expansion preserves the truth value of a condition in every model.
pub proof fn lemma_expansion_preserves_eval<R: TraitResolver>(res: R, m: Model, c: SpecCondition)
    ensures
        eval(res, m, spec_expand_traits(res, c)) == eval(res, m, c),
    decreases c,
{
    match c {
        SpecCondition::Trait(name, d) => {
            lemma_expansion_preserves_eval(res, m, *d);
            lemma_conjoin_eval(res, m, spec_expand_traits(res, *d), res.spec_resolve(name));
        },
        SpecCondition::Fact(d) => lemma_expansion_preserves_eval(res, m, *d),
        SpecCondition::Not(d) => lemma_expansion_preserves_eval(res, m, *d),
        SpecCondition::And(a, b) => {
            lemma_expansion_preserves_eval(res, m, *a);
            lemma_expansion_preserves_eval(res, m, *b);
        },
        SpecCondition::Or(a, b) => {
            lemma_expansion_preserves_eval(res, m, *a);
            lemma_expansion_preserves_eval(res, m, *b);
        },
        _ => {},
    }
}

proof fn lemma_contains_equal_present<R: TraitResolver>(
    res: R,
    m: Model,
    c: SpecCondition,
    v: SpecValue,
)
    requires
        spec_contains_equal(c, v),
        eval(res, m, c),
    ensures
        (m.present)(v),
    decreases c,
{
    match c {
        SpecCondition::Equal(_, _) => {},
        SpecCondition::Fact(d) => lemma_contains_equal_present(res, m, *d, v),
        SpecCondition::And(a, b) => {
            if spec_contains_equal(*a, v) {
                lemma_contains_equal_present(res, m, *a, v);
            } else {
                lemma_contains_equal_present(res, m, *b, v);
            }
        },
        SpecCondition::Or(a, b) => {
            if eval(res, m, *a) {
                lemma_contains_equal_present(res, m, *a, v);
            } else {
                lemma_contains_equal_present(res, m, *b, v);
            }
        },
        _ => {},
    }
}

/// Present/equal compaction preserves the truth value of a condition in every
/// model: an equality over a value implies its presence.
pub proof fn lemma_compaction_preserves_eval<R: TraitResolver>(res: R, m: Model, c: SpecCondition)
    ensures
        eval(res, m, spec_compact(c)) == eval(res, m, c),
    decreases c,
{
    reveal_with_fuel(eval, 3);
    match c {
        SpecCondition::And(a, b) => match (*a, *b) {
            (SpecCondition::Present(v), other) => {
                assert(eval(res, m, c) == ((m.present)(v) && eval(res, m, other)));
                lemma_compaction_preserves_eval(res, m, other);
                if spec_contains_equal(other, v) {
                    assert(spec_compact(c) == spec_compact(other));
                    if eval(res, m, other) {
                        lemma_contains_equal_present(res, m, other, v);
                    }
                } else {
                    assert(spec_compact(c) == SpecCondition::And(
                        Box::new(SpecCondition::Present(v)),
                        Box::new(spec_compact(other)),
                    ));
                }
            },
            (other, SpecCondition::Present(v)) => {
                assert(eval(res, m, c) == (eval(res, m, other) && (m.present)(v)));
                lemma_compaction_preserves_eval(res, m, other);
                if spec_contains_equal(other, v) {
                    assert(spec_compact(c) == spec_compact(other));
                    if eval(res, m, other) {
                        lemma_contains_equal_present(res, m, other, v);
                    }
                } else {
                    assert(spec_compact(c) == SpecCondition::And(
                        Box::new(SpecCondition::Present(v)),
                        Box::new(spec_compact(other)),
                    ));
                }
            },
            (x, y) => {
                lemma_compaction_preserves_eval(res, m, x);
                lemma_compaction_preserves_eval(res, m, y);
                assert(spec_compact(c) == SpecCondition::And(
                    Box::new(spec_compact(x)),
                    Box::new(spec_compact(y)),
                ));
            },
        },
        SpecCondition::Fact(d) => lemma_compaction_preserves_eval(res, m, *d),
        SpecCondition::Trait(_, d) => lemma_compaction_preserves_eval(res, m, *d),
        SpecCondition::Not(d) => lemma_compaction_preserves_eval(res, m, *d),
        SpecCondition::Or(a, b) => {
            lemma_compaction_preserves_eval(res, m, *a);
            lemma_compaction_preserves_eval(res, m, *b);
        },
        _ => {},
    }
}

/// No disjunction of the tree has exactly one branch that comparison
/// suppression eliminates, and nothing it eliminates stands under a negation
/// or a trait scope. Elimination stands for truth, so an unbalanced drop
/// would strengthen a disjunction and a negated tautology would flip.
pub open spec fn comparison_elimination_balanced(c: SpecCondition) -> bool
    decreases c,
{
    match c {
        SpecCondition::Or(a, b) => {
            &&& (spec_suppress_comparisons(*a) is None <==> spec_suppress_comparisons(*b) is None)
            &&& comparison_elimination_balanced(*a)
            &&& comparison_elimination_balanced(*b)
        },
        SpecCondition::Not(d) => spec_suppress_comparisons(*d) is Some
            && comparison_elimination_balanced(*d),
        SpecCondition::Trait(_, d) => spec_suppress_comparisons(*d) is Some
            && comparison_elimination_balanced(*d),
        SpecCondition::And(a, b) => comparison_elimination_balanced(*a)
            && comparison_elimination_balanced(*b),
        SpecCondition::Fact(d) => comparison_elimination_balanced(*d),
        _ => true,
    }
}

/// Comparison suppression preserves truth in every well-formed model: an
/// eliminated condition was true, and a rewritten one keeps its value.
pub proof fn lemma_suppression_preserves_eval<R: TraitResolver>(res: R, m: Model, c: SpecCondition)
    requires
        model_wf(m),
        comparison_elimination_balanced(c),
    ensures
        spec_suppress_comparisons(c) is None ==> eval(res, m, c),
        spec_suppress_comparisons(c) matches Some(y) ==> eval(res, m, y) == eval(res, m, c),
    decreases c,
{
    reveal_with_fuel(eval, 3);
    reveal_with_fuel(spec_suppress_comparisons, 2);
    match c {
        SpecCondition::Equal(v1, v2) => match (v1, v2) {
            (SpecValue::Data(x), SpecValue::Data(y)) => {
                assert((m.denote)(SpecValue::Data(x)) == x);
                assert((m.denote)(SpecValue::Data(y)) == y);
                assert((m.present)(SpecValue::Data(x)));
                assert((m.present)(SpecValue::Data(y)));
            },
            (SpecValue::Attribute(x), SpecValue::Attribute(y)) => {
                assert((m.present)(SpecValue::Attribute(x)));
                assert((m.present)(SpecValue::Attribute(y)));
            },
            (SpecValue::Binding(x), SpecValue::Attribute(y)) => {
                assert((m.present)(SpecValue::Binding(x)));
                assert((m.present)(SpecValue::Attribute(y)));
                if x == y {
                    assert((m.denote)(SpecValue::Binding(x)) == (m.denote)(
                        SpecValue::Attribute(x),
                    ));
                }
            },
            _ => {},
        },
        SpecCondition::LessThan(v1, v2) => match (v1, v2) {
            (SpecValue::Data(x), SpecValue::Data(y)) => {
                assert((m.denote)(SpecValue::Data(x)) == x);
                assert((m.denote)(SpecValue::Data(y)) == y);
                assert((m.present)(SpecValue::Data(x)));
                assert((m.present)(SpecValue::Data(y)));
            },
            _ => {},
        },
        SpecCondition::GreaterThan(v1, v2) => match (v1, v2) {
            (SpecValue::Data(x), SpecValue::Data(y)) => {
                assert((m.denote)(SpecValue::Data(x)) == x);
                assert((m.denote)(SpecValue::Data(y)) == y);
                assert((m.present)(SpecValue::Data(x)));
                assert((m.present)(SpecValue::Data(y)));
            },
            _ => {},
        },
        SpecCondition::Fact(d) => lemma_suppression_preserves_eval(res, m, *d),
        SpecCondition::Trait(_, d) => lemma_suppression_preserves_eval(res, m, *d),
        SpecCondition::Not(d) => lemma_suppression_preserves_eval(res, m, *d),
        SpecCondition::And(a, b) => {
            lemma_suppression_preserves_eval(res, m, *a);
            lemma_suppression_preserves_eval(res, m, *b);
        },
        SpecCondition::Or(a, b) => {
            lemma_suppression_preserves_eval(res, m, *a);
            lemma_suppression_preserves_eval(res, m, *b);
        },
        _ => {},
    }
}

/// No conjunction of the tree has exactly one branch that boolean literal
/// suppression eliminates, and nothing it eliminates stands under a negation.
/// Elimination here stands for falsity, so an unbalanced drop would weaken a
/// conjunction and a negated falsity would flip.
pub open spec fn literal_elimination_balanced(c: SpecCondition) -> bool
    decreases c,
{
    match c {
        SpecCondition::And(a, b) => {
            &&& (spec_suppress_literals(*a) is None <==> spec_suppress_literals(*b) is None)
            &&& literal_elimination_balanced(*a)
            &&& literal_elimination_balanced(*b)
        },
        SpecCondition::Not(d) => spec_suppress_literals(*d) is Some && literal_elimination_balanced(
            *d,
        ),
        SpecCondition::Or(a, b) => literal_elimination_balanced(*a) && literal_elimination_balanced(
            *b,
        ),
        SpecCondition::Fact(d) => literal_elimination_balanced(*d),
        SpecCondition::Trait(_, d) => literal_elimination_balanced(*d),
        _ => true,
    }
}

/// Boolean literal suppression preserves truth in every model: an eliminated
/// condition was false, and a rewritten one keeps its value.
pub proof fn lemma_literal_suppression_preserves_eval<R: TraitResolver>(
    res: R,
    m: Model,
    c: SpecCondition,
)
    requires
        literal_elimination_balanced(c),
    ensures
        spec_suppress_literals(c) is None ==> !eval(res, m, c),
        spec_suppress_literals(c) matches Some(y) ==> eval(res, m, y) == eval(res, m, c),
    decreases c,
{
    match c {
        SpecCondition::Fact(d) => lemma_literal_suppression_preserves_eval(res, m, *d),
        SpecCondition::Trait(_, d) => lemma_literal_suppression_preserves_eval(res, m, *d),
        SpecCondition::Not(d) => lemma_literal_suppression_preserves_eval(res, m, *d),
        SpecCondition::And(a, b) => {
            lemma_literal_suppression_preserves_eval(res, m, *a);
            lemma_literal_suppression_preserves_eval(res, m, *b);
        },
        SpecCondition::Or(a, b) => {
            lemma_literal_suppression_preserves_eval(res, m, *a);
            lemma_literal_suppression_preserves_eval(res, m, *b);
        },
        _ => {},
    }
}

/// Semantic preservation of the full chain: in every well-formed model, when
/// the chain returns a condition, that condition has the truth value of the
/// input. The two balance conditions leave out the inputs on which a one-sided
/// elimination inside a disjunction or conjunction changes the value.
pub proof fn lemma_pipeline_preserves_eval<R: TraitResolver>(res: R, m: Model, c: SpecCondition)
    requires
        model_wf(m),
        comparison_elimination_balanced(spec_compact(spec_expand_traits(res, c))),
        match spec_suppress_comparisons(spec_compact(spec_expand_traits(res, c))) {
            Some(s) => literal_elimination_balanced(s),
            None => true,
        },
    ensures
        spec_pipeline(res, c) matches Some(out) ==> eval(res, m, out) == eval(res, m, c),
{
    let e = spec_expand_traits(res, c);
    let p = spec_compact(e);
    lemma_expansion_preserves_eval(res, m, c);
    lemma_compaction_preserves_eval(res, m, e);
    lemma_suppression_preserves_eval(res, m, p);
    match spec_suppress_comparisons(p) {
        None => {},
        Some(s) => {
            lemma_literal_suppression_preserves_eval(res, m, s);
            match spec_suppress_literals(s) {
                None => {},
                Some(b) => {
                    assert(eval(res, m, spec_wrap_fact(b)) == eval(res, m, b));
                },
            }
        },
    }
}

} // verus!
