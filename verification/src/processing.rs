//! The rewrite pipeline over conditions: trait expansion, present/equal
//! compaction, comparison suppression, boolean literal suppression, and the
//! final fact wrapping, together with the processor contract they share.
//!
//! Each processor is deterministic and terminating; its result is pinned to a
//! mathematical rewrite function over the condition tree. A processor returns
//! `Some(c)` for a rewritten condition and `None` when the condition has been
//! wholly absorbed ("eliminated").

use vstd::prelude::*;

use crate::bytes::bytes_eq;
use crate::bytes::bytes_lt;
use crate::bytes::lex_lt;
use crate::condition::Condition;
use crate::condition::SpecCondition;
use crate::condition::SpecValue;
use crate::condition::Value;
use crate::laws::lemma_compact_compacted;
use crate::laws::lemma_compacted_fixpoint;
use crate::laws::lemma_expansion_eliminates_traits;
use crate::laws::lemma_expansion_fixpoint;
use crate::laws::lemma_suppress_comparisons_clean;
use crate::laws::lemma_suppress_comparisons_fixpoint;
use crate::laws::lemma_suppress_literals_annihilates;
use crate::laws::lemma_suppress_literals_fixpoint;
use crate::model::SpecTraitPattern;
use crate::model::TraitResolver;

verus! {

/// The ghost condition an optional rewrite result stands for.
pub open spec fn opt_cond(r: Option<Condition>) -> Option<SpecCondition> {
    match r {
        Some(c) => Some(c@),
        None => None,
    }
}

/// A one-step condition rewrite. `accepts` is the processor's precondition;
/// `spec_process` pins down the rewrite as a mathematical function.
pub trait Processor {
    /// The inputs this processor may be applied to.
    spec fn accepts(&self, c: SpecCondition) -> bool;

    /// The rewrite this processor performs, as a function of the input tree.
    spec fn spec_process(&self, c: SpecCondition) -> Option<SpecCondition>;

    /// Rewrite a condition, or eliminate it entirely.
    fn process(&self, condition: Condition) -> (r: Option<Condition>)
        requires
            self.accepts(condition@),
        ensures
            opt_cond(r) == self.spec_process(condition@),
    ;
}

/// Precondition of the default traversal: the processor accepts each direct
/// sub-tree of the given node.
pub open spec fn spec_rec_accepts<P: Processor>(p: &P, c: SpecCondition) -> bool {
    match c {
        SpecCondition::Fact(d) => p.accepts(*d),
        SpecCondition::Trait(_, d) => p.accepts(*d),
        SpecCondition::Not(d) => p.accepts(*d),
        SpecCondition::And(a, b) => p.accepts(*a) && p.accepts(*b),
        SpecCondition::Or(a, b) => p.accepts(*a) && p.accepts(*b),
        _ => true,
    }
}

/// The default traversal as a function: apply the processor to each direct
/// sub-tree and recombine. A scoping or negation node whose body is eliminated
/// is eliminated; a conjunction or disjunction keeps whichever branches
/// survive, dropping the operator when only one does; leaves are unchanged.
/// Because every rewrite is stable under the traversal, this equals sending
/// each sub-tree through the processor and then through the traversal again:
/// `lemma_traversal_composes`.
pub open spec fn spec_process_recursively<P: Processor>(p: &P, c: SpecCondition) -> Option<
    SpecCondition,
> {
    match c {
        SpecCondition::Fact(d) => match p.spec_process(*d) {
            None => None,
            Some(x) => Some(SpecCondition::Fact(Box::new(x))),
        },
        SpecCondition::Trait(t, d) => match p.spec_process(*d) {
            None => None,
            Some(x) => Some(SpecCondition::Trait(t, Box::new(x))),
        },
        SpecCondition::Not(d) => match p.spec_process(*d) {
            None => None,
            Some(x) => Some(SpecCondition::Not(Box::new(x))),
        },
        SpecCondition::And(a, b) => match (p.spec_process(*a), p.spec_process(*b)) {
            (None, None) => None,
            (Some(x), None) => Some(x),
            (None, Some(y)) => Some(y),
            (Some(x), Some(y)) => Some(SpecCondition::And(Box::new(x), Box::new(y))),
        },
        SpecCondition::Or(a, b) => match (p.spec_process(*a), p.spec_process(*b)) {
            (None, None) => None,
            (Some(x), None) => Some(x),
            (None, Some(y)) => Some(y),
            (Some(x), Some(y)) => Some(SpecCondition::Or(Box::new(x), Box::new(y))),
        },
        _ => Some(c),
    }
}

/// A processor with the default traversal: each direct sub-tree goes through
/// `process` and then through the traversal again, and the results are
/// recombined. Every implementor proves `process_stable`: its rewrite is a
/// fixpoint of the traversal, so the inner traversal leaves the rewritten
/// sub-tree unchanged and one application of `process` per sub-tree computes
/// the composition (`lemma_traversal_composes` states those equations).
pub trait Recursive: Processor + Sized {
    /// The processor's rewrite is stable under the traversal: traversing a
    /// rewritten tree leaves it unchanged.
    proof fn process_stable(&self, c: SpecCondition)
        requires
            self.accepts(c),
        ensures
            self.spec_process(c) matches Some(x) ==> spec_process_recursively(self, x) == Some(
                x,
            ),
    ;

    /// Apply the processor and the traversal to each direct sub-tree and
    /// recombine.
    fn process_recursively(&self, condition: Condition) -> (r: Option<Condition>)
        requires
            spec_rec_accepts(self, condition@),
        ensures
            opt_cond(r) == spec_process_recursively(self, condition@),
    {
        match condition {
            Condition::Fact(c) => match self.process(*c) {
                None => None,
                Some(x) => Some(Condition::Fact(Box::new(x))),
            },
            Condition::Trait(t, c) => match self.process(*c) {
                None => None,
                Some(x) => Some(Condition::Trait(t, Box::new(x))),
            },
            Condition::Not(c) => match self.process(*c) {
                None => None,
                Some(x) => Some(Condition::Not(Box::new(x))),
            },
            Condition::And(c1, c2) => {
                let r1 = self.process(*c1);
                let r2 = self.process(*c2);
                match (r1, r2) {
                    (None, None) => None,
                    (Some(x), None) => Some(x),
                    (None, Some(y)) => Some(y),
                    (Some(x), Some(y)) => Some(Condition::And(Box::new(x), Box::new(y))),
                }
            },
            Condition::Or(c1, c2) => {
                let r1 = self.process(*c1);
                let r2 = self.process(*c2);
                match (r1, r2) {
                    (None, None) => None,
                    (Some(x), None) => Some(x),
                    (None, Some(y)) => Some(y),
                    (Some(x), Some(y)) => Some(Condition::Or(Box::new(x), Box::new(y))),
                }
            },
            other => Some(other),
        }
    }
}

/// One branch of the default traversal: the processor's rewrite, followed by
/// the traversal of its result; an eliminated branch stays eliminated.
pub open spec fn spec_then_traverse<P: Processor>(p: &P, c: SpecCondition) -> Option<
    SpecCondition,
> {
    match p.spec_process(c) {
        None => None,
        Some(x) => spec_process_recursively(p, x),
    }
}

/// The default traversal composes as stated: each direct sub-tree goes through
/// the processor and then the traversal, an eliminated body eliminates its
/// scope or negation, and a conjunction or disjunction keeps whichever
/// branches survive, dropping the operator when only one does. Because every
/// rewrite is stable under the traversal (`process_stable`), this equals one
/// application of the processor per sub-tree.
pub proof fn lemma_traversal_composes<P: Recursive>(p: &P, c: SpecCondition)
    requires
        spec_rec_accepts(p, c),
    ensures
        spec_process_recursively(p, c) == match c {
            SpecCondition::Fact(d) => match spec_then_traverse(p, *d) {
                None => None,
                Some(y) => Some(SpecCondition::Fact(Box::new(y))),
            },
            SpecCondition::Trait(t, d) => match spec_then_traverse(p, *d) {
                None => None,
                Some(y) => Some(SpecCondition::Trait(t, Box::new(y))),
            },
            SpecCondition::Not(d) => match spec_then_traverse(p, *d) {
                None => None,
                Some(y) => Some(SpecCondition::Not(Box::new(y))),
            },
            SpecCondition::And(a, b) => match (
                spec_then_traverse(p, *a),
                spec_then_traverse(p, *b),
            ) {
                (None, None) => None,
                (Some(x), None) => Some(x),
                (None, Some(y)) => Some(y),
                (Some(x), Some(y)) => Some(SpecCondition::And(Box::new(x), Box::new(y))),
            },
            SpecCondition::Or(a, b) => match (
                spec_then_traverse(p, *a),
                spec_then_traverse(p, *b),
            ) {
                (None, None) => None,
                (Some(x), None) => Some(x),
                (None, Some(y)) => Some(y),
                (Some(x), Some(y)) => Some(SpecCondition::Or(Box::new(x), Box::new(y))),
            },
            _ => Some(c),
        },
{
    match c {
        SpecCondition::Fact(d) => p.process_stable(*d),
        SpecCondition::Trait(_, d) => p.process_stable(*d),
        SpecCondition::Not(d) => p.process_stable(*d),
        SpecCondition::And(a, b) => {
            p.process_stable(*a);
            p.process_stable(*b);
        },
        SpecCondition::Or(a, b) => {
            p.process_stable(*a);
            p.process_stable(*b);
        },
        _ => {},
    }
}

/// Piping of optional conditions through further processors; an eliminated
/// condition stays eliminated.
pub trait ProcessorExtension: Sized {
    /// The ghost condition this stage result stands for, if any.
    spec fn current(&self) -> Option<SpecCondition>;

    /// Feed a surviving condition to the next processor.
    fn after_that<P: Processor>(self, p: P) -> (r: Option<Condition>)
        requires
            self.current() matches Some(c) ==> p.accepts(c),
        ensures
            opt_cond(r) == match self.current() {
                None => None::<SpecCondition>,
                Some(c) => p.spec_process(c),
            },
    ;
}

impl ProcessorExtension for Option<Condition> {
    open spec fn current(&self) -> Option<SpecCondition> {
        opt_cond(*self)
    }

    fn after_that<P: Processor>(self, p: P) -> (r: Option<Condition>) {
        match self {
            None => None,
            Some(c) => p.process(c),
        }
    }
}

// ---------------------------------------------------------------------------
// Value helpers
// ---------------------------------------------------------------------------

/// Structural equality of two values: same tag, same payload bytes.
pub fn value_eq(a: &Value, b: &Value) -> (r: bool)
    ensures
        r == (a@ == b@),
{
    match (a, b) {
        (Value::Data(x), Value::Data(y)) => bytes_eq(x, y),
        (Value::Binding(x), Value::Binding(y)) => bytes_eq(x, y),
        (Value::Attribute(x), Value::Attribute(y)) => bytes_eq(x, y),
        (Value::AttributeTxid(x), Value::AttributeTxid(y)) => bytes_eq(x, y),
        _ => false,
    }
}

fn is_data(v: &Value) -> (r: bool)
    ensures
        r == (v@ is Data),
{
    matches!(v, Value::Data(_))
}

fn is_present(c: &Condition) -> (r: bool)
    ensures
        r == (c@ is Present),
{
    matches!(c, Condition::Present(_))
}

fn data_lt(a: &Value, b: &Value) -> (r: bool)
    requires
        a@ is Data,
        b@ is Data,
    ensures
        r == lex_lt(a@->Data_0, b@->Data_0),
{
    match (a, b) {
        (Value::Data(x), Value::Data(y)) => bytes_lt(x, y),
        _ => false,
    }
}

fn attr_eq_attr(a: &Value, b: &Value) -> (r: bool)
    ensures
        r == (a@ is Attribute && b@ is Attribute && a@->Attribute_0 == b@->Attribute_0),
{
    match (a, b) {
        (Value::Attribute(x), Value::Attribute(y)) => bytes_eq(x, y),
        _ => false,
    }
}

fn binding_eq_attr(a: &Value, b: &Value) -> (r: bool)
    ensures
        r == (a@ is Binding && b@ is Attribute && a@->Binding_0 == b@->Attribute_0),
{
    match (a, b) {
        (Value::Binding(x), Value::Attribute(y)) => bytes_eq(x, y),
        _ => false,
    }
}

// ---------------------------------------------------------------------------
// TraitsExpansion
// ---------------------------------------------------------------------------

/// The predicate a single trait pattern stands for: presence of the named
/// attribute, or its equality to the given literal value.
pub open spec fn spec_pattern_condition(p: SpecTraitPattern) -> SpecCondition {
    match p.value {
        None => SpecCondition::Present(SpecValue::Attribute(p.name)),
        Some(v) => SpecCondition::Equal(SpecValue::Attribute(p.name), SpecValue::Data(v)),
    }
}

/// Conjoin the conditions of the given patterns onto `base`, left to right.
pub open spec fn spec_conjoin_patterns(
    base: SpecCondition,
    pats: Seq<SpecTraitPattern>,
) -> SpecCondition
    decreases pats.len(),
{
    if pats.len() == 0 {
        base
    } else {
        spec_conjoin_patterns(
            SpecCondition::And(Box::new(base), Box::new(spec_pattern_condition(pats[0]))),
            pats.skip(1),
        )
    }
}

/// Every trait name in the tree is covered by the resolver.
pub open spec fn spec_expandable<R: TraitResolver>(res: R, c: SpecCondition) -> bool
    decreases c,
{
    match c {
        SpecCondition::Trait(name, d) => res.resolves(name) && spec_expandable(res, *d),
        SpecCondition::Fact(d) => spec_expandable(res, *d),
        SpecCondition::Not(d) => spec_expandable(res, *d),
        SpecCondition::And(a, b) => spec_expandable(res, *a) && spec_expandable(res, *b),
        SpecCondition::Or(a, b) => spec_expandable(res, *a) && spec_expandable(res, *b),
        _ => true,
    }
}

/// Trait expansion: each `Trait(name, inner)` is replaced by `inner` (itself
/// expanded first) conjoined with the conditions of the resolved patterns in
/// declared order; all other nodes are traversed.
pub open spec fn spec_expand_traits<R: TraitResolver>(res: R, c: SpecCondition) -> SpecCondition
    decreases c,
{
    match c {
        SpecCondition::Trait(name, d) => spec_conjoin_patterns(
            spec_expand_traits(res, *d),
            res.spec_resolve(name),
        ),
        SpecCondition::Fact(d) => SpecCondition::Fact(Box::new(spec_expand_traits(res, *d))),
        SpecCondition::Not(d) => SpecCondition::Not(Box::new(spec_expand_traits(res, *d))),
        SpecCondition::And(a, b) => SpecCondition::And(
            Box::new(spec_expand_traits(res, *a)),
            Box::new(spec_expand_traits(res, *b)),
        ),
        SpecCondition::Or(a, b) => SpecCondition::Or(
            Box::new(spec_expand_traits(res, *a)),
            Box::new(spec_expand_traits(res, *b)),
        ),
        _ => c,
    }
}

/// Replaces every trait scope by the conjunction of its resolved patterns.
pub struct TraitsExpansion<R: TraitResolver> {
    /// The capability that maps trait names to their definitions.
    pub resolver: R,
}

impl<R: TraitResolver> TraitsExpansion<R> {
    /// An expansion pass over the given resolver.
    pub fn new(resolver: R) -> (r: Self)
        ensures
            r.resolver == resolver,
    {
        TraitsExpansion { resolver }
    }

    fn expand(&self, c: Condition) -> (r: Condition)
        requires
            spec_expandable(self.resolver, c@),
        ensures
            r@ == spec_expand_traits(self.resolver, c@),
        decreases c,
    {
        match c {
            Condition::Trait(name, inner) => {
                let ghost gname = name@;
                let mut cond = self.expand(*inner);
                let ghost expanded = cond@;
                let tdef = self.resolver.resolve(name);
                let ghost pats = tdef@;
                let n = tdef.len();
                let mut i: usize = 0;
                proof {
                    assert(pats.skip(0) =~= pats);
                }
                while i < n
                    invariant
                        i <= n,
                        n == pats.len(),
                        tdef@ == pats,
                        spec_conjoin_patterns(cond@, pats.skip(i as int))
                            == spec_conjoin_patterns(expanded, pats),
                    decreases n - i,
                {
                    let p = tdef.get(i);
                    let prev = cond;
                    match &p.1 {
                        None => {
                            cond = prev.and(
                                Condition::Present(
                                    Value::Attribute(crate::bytes::copy_bytes(&p.0)),
                                ),
                            );
                        },
                        Some(val) => {
                            cond = prev.and(
                                Condition::Equal(
                                    Value::Attribute(crate::bytes::copy_bytes(&p.0)),
                                    Value::Data(crate::bytes::copy_bytes(val)),
                                ),
                            );
                        },
                    }
                    proof {
                        assert(pats.skip(i as int)[0] == pats[i as int]);
                        assert(cond@ == SpecCondition::And(
                            Box::new(prev@),
                            Box::new(spec_pattern_condition(pats[i as int])),
                        ));
                        assert(pats.skip(i as int).skip(1) =~= pats.skip(i + 1));
                    }
                    i = i + 1;
                }
                proof {
                    assert(pats.skip(n as int) =~= Seq::<SpecTraitPattern>::empty());
                }
                cond
            },
            Condition::Fact(d) => Condition::Fact(Box::new(self.expand(*d))),
            Condition::Not(d) => Condition::Not(Box::new(self.expand(*d))),
            Condition::And(a, b) => Condition::And(
                Box::new(self.expand(*a)),
                Box::new(self.expand(*b)),
            ),
            Condition::Or(a, b) => Condition::Or(
                Box::new(self.expand(*a)),
                Box::new(self.expand(*b)),
            ),
            other => other,
        }
    }
}

impl<R: TraitResolver> Processor for TraitsExpansion<R> {
    open spec fn accepts(&self, c: SpecCondition) -> bool {
        spec_expandable(self.resolver, c)
    }

    open spec fn spec_process(&self, c: SpecCondition) -> Option<SpecCondition> {
        Some(spec_expand_traits(self.resolver, c))
    }

    fn process(&self, condition: Condition) -> (r: Option<Condition>) {
        Some(self.expand(condition))
    }
}

impl<R: TraitResolver> Recursive for TraitsExpansion<R> {
    proof fn process_stable(&self, c: SpecCondition) {
        lemma_expansion_eliminates_traits(self.resolver, c);
        match spec_expand_traits(self.resolver, c) {
            SpecCondition::Fact(d) => lemma_expansion_fixpoint(self.resolver, *d),
            SpecCondition::Trait(_, d) => lemma_expansion_fixpoint(self.resolver, *d),
            SpecCondition::Not(d) => lemma_expansion_fixpoint(self.resolver, *d),
            SpecCondition::And(a, b) => {
                lemma_expansion_fixpoint(self.resolver, *a);
                lemma_expansion_fixpoint(self.resolver, *b);
            },
            SpecCondition::Or(a, b) => {
                lemma_expansion_fixpoint(self.resolver, *a);
                lemma_expansion_fixpoint(self.resolver, *b);
            },
            _ => {},
        }
    }
}

// ---------------------------------------------------------------------------
// PresentEqualCompaction
// ---------------------------------------------------------------------------

/// Whether every path of the tree constrains `attr` through a top-level
/// equality with `attr` as an operand: a conjunction through either side,
/// a disjunction only through both.
pub open spec fn spec_contains_equal(c: SpecCondition, attr: SpecValue) -> bool
    decreases c,
{
    match c {
        SpecCondition::Equal(a, b) => a == attr || b == attr,
        SpecCondition::Fact(d) => spec_contains_equal(*d, attr),
        SpecCondition::And(a, b) => spec_contains_equal(*a, attr) || spec_contains_equal(
            *b,
            attr,
        ),
        SpecCondition::Or(a, b) => spec_contains_equal(*a, attr) && spec_contains_equal(*b, attr),
        _ => false,
    }
}

/// Present/equal compaction: a conjunction of `Present(v)` with a sibling that
/// already constrains `v` through an equality reduces to that sibling, since
/// equality implies presence; the sibling is compacted further either way, so
/// one application reaches every remaining redundant presence check and the
/// result is a fixpoint of this pass. All other nodes are traversed.
pub open spec fn spec_compact(c: SpecCondition) -> SpecCondition
    decreases c,
{
    match c {
        SpecCondition::And(a, b) => match (*a, *b) {
            (SpecCondition::Present(v), other) => {
                if spec_contains_equal(other, v) {
                    spec_compact(other)
                } else {
                    SpecCondition::And(
                        Box::new(SpecCondition::Present(v)),
                        Box::new(spec_compact(other)),
                    )
                }
            },
            (other, SpecCondition::Present(v)) => {
                if spec_contains_equal(other, v) {
                    spec_compact(other)
                } else {
                    SpecCondition::And(
                        Box::new(SpecCondition::Present(v)),
                        Box::new(spec_compact(other)),
                    )
                }
            },
            (x, y) => SpecCondition::And(Box::new(spec_compact(x)), Box::new(spec_compact(y))),
        },
        SpecCondition::Fact(d) => SpecCondition::Fact(Box::new(spec_compact(*d))),
        SpecCondition::Trait(t, d) => SpecCondition::Trait(t, Box::new(spec_compact(*d))),
        SpecCondition::Not(d) => SpecCondition::Not(Box::new(spec_compact(*d))),
        SpecCondition::Or(a, b) => SpecCondition::Or(
            Box::new(spec_compact(*a)),
            Box::new(spec_compact(*b)),
        ),
        _ => c,
    }
}

/// Executable mirror of `spec_contains_equal`.
fn contains_equal(cond: &Condition, attr: &Value) -> (r: bool)
    ensures
        r == spec_contains_equal(cond@, attr@),
    decreases cond,
{
    match cond {
        Condition::Equal(a, b) => value_eq(a, attr) || value_eq(b, attr),
        Condition::Fact(c) => contains_equal(c, attr),
        Condition::And(c1, c2) => contains_equal(c1, attr) || contains_equal(c2, attr),
        Condition::Or(c1, c2) => contains_equal(c1, attr) && contains_equal(c2, attr),
        _ => false,
    }
}

fn compact_condition(c: Condition) -> (r: Condition)
    ensures
        r@ == spec_compact(c@),
    decreases c,
{
    match c {
        Condition::And(a, b) => {
            let a = *a;
            let b = *b;
            if is_present(&a) {
                match a {
                    Condition::Present(v) => {
                        if contains_equal(&b, &v) {
                            compact_condition(b)
                        } else {
                            Condition::And(
                                Box::new(Condition::Present(v)),
                                Box::new(compact_condition(b)),
                            )
                        }
                    },
                    _ => vstd::pervasive::unreached(),
                }
            } else if is_present(&b) {
                match b {
                    Condition::Present(v) => {
                        if contains_equal(&a, &v) {
                            compact_condition(a)
                        } else {
                            Condition::And(
                                Box::new(Condition::Present(v)),
                                Box::new(compact_condition(a)),
                            )
                        }
                    },
                    _ => vstd::pervasive::unreached(),
                }
            } else {
                Condition::And(Box::new(compact_condition(a)), Box::new(compact_condition(b)))
            }
        },
        Condition::Fact(d) => Condition::Fact(Box::new(compact_condition(*d))),
        Condition::Trait(t, d) => Condition::Trait(t, Box::new(compact_condition(*d))),
        Condition::Not(d) => Condition::Not(Box::new(compact_condition(*d))),
        Condition::Or(a, b) => Condition::Or(
            Box::new(compact_condition(*a)),
            Box::new(compact_condition(*b)),
        ),
        other => other,
    }
}

/// Absorbs a `Present(v)` conjunct whose sibling already constrains `v`
/// through an equality: the equality implies presence.
pub struct PresentEqualCompaction;

impl Processor for PresentEqualCompaction {
    open spec fn accepts(&self, c: SpecCondition) -> bool {
        true
    }

    open spec fn spec_process(&self, c: SpecCondition) -> Option<SpecCondition> {
        Some(spec_compact(c))
    }

    fn process(&self, condition: Condition) -> (r: Option<Condition>) {
        Some(compact_condition(condition))
    }
}

impl Recursive for PresentEqualCompaction {
    proof fn process_stable(&self, c: SpecCondition) {
        lemma_compact_compacted(c);
        match spec_compact(c) {
            SpecCondition::Fact(d) => lemma_compacted_fixpoint(*d),
            SpecCondition::Trait(_, d) => lemma_compacted_fixpoint(*d),
            SpecCondition::Not(d) => lemma_compacted_fixpoint(*d),
            SpecCondition::And(a, b) => {
                lemma_compacted_fixpoint(*a);
                lemma_compacted_fixpoint(*b);
            },
            SpecCondition::Or(a, b) => {
                lemma_compacted_fixpoint(*a);
                lemma_compacted_fixpoint(*b);
            },
            _ => {},
        }
    }
}

// ---------------------------------------------------------------------------
// ComparisonSuppression
// ---------------------------------------------------------------------------

/// Comparison suppression: a comparison of two literal data values is decided
/// now — a true one is eliminated, a false one becomes the literal `False`;
/// an equality of an attribute with itself, or of a binding with the
/// same-named attribute, is eliminated as trivially true. Data is ordered
/// byte-lexicographically. All other nodes are traversed, an eliminated
/// branch of a conjunction or disjunction being dropped.
pub open spec fn spec_suppress_comparisons(c: SpecCondition) -> Option<SpecCondition>
    decreases c,
{
    match c {
        SpecCondition::Equal(v1, v2) => match (v1, v2) {
            (SpecValue::Data(a), SpecValue::Data(b)) => {
                if a == b {
                    None
                } else {
                    Some(SpecCondition::False)
                }
            },
            (SpecValue::Attribute(a), SpecValue::Attribute(b)) => {
                if a == b {
                    None
                } else {
                    Some(
                        SpecCondition::Equal(SpecValue::Attribute(a), SpecValue::Attribute(b)),
                    )
                }
            },
            (SpecValue::Binding(a), SpecValue::Attribute(b)) => {
                if a == b {
                    None
                } else {
                    Some(SpecCondition::Equal(SpecValue::Binding(a), SpecValue::Attribute(b)))
                }
            },
            (x, y) => Some(SpecCondition::Equal(x, y)),
        },
        SpecCondition::LessThan(v1, v2) => match (v1, v2) {
            (SpecValue::Data(a), SpecValue::Data(b)) => {
                if lex_lt(a, b) {
                    None
                } else {
                    Some(SpecCondition::False)
                }
            },
            (x, y) => Some(SpecCondition::LessThan(x, y)),
        },
        SpecCondition::GreaterThan(v1, v2) => match (v1, v2) {
            (SpecValue::Data(a), SpecValue::Data(b)) => {
                if lex_lt(b, a) {
                    None
                } else {
                    Some(SpecCondition::False)
                }
            },
            (x, y) => Some(SpecCondition::GreaterThan(x, y)),
        },
        SpecCondition::Fact(d) => match spec_suppress_comparisons(*d) {
            None => None,
            Some(x) => Some(SpecCondition::Fact(Box::new(x))),
        },
        SpecCondition::Trait(t, d) => match spec_suppress_comparisons(*d) {
            None => None,
            Some(x) => Some(SpecCondition::Trait(t, Box::new(x))),
        },
        SpecCondition::Not(d) => match spec_suppress_comparisons(*d) {
            None => None,
            Some(x) => Some(SpecCondition::Not(Box::new(x))),
        },
        SpecCondition::And(a, b) => match (
            spec_suppress_comparisons(*a),
            spec_suppress_comparisons(*b),
        ) {
            (None, None) => None,
            (Some(x), None) => Some(x),
            (None, Some(y)) => Some(y),
            (Some(x), Some(y)) => Some(SpecCondition::And(Box::new(x), Box::new(y))),
        },
        SpecCondition::Or(a, b) => match (
            spec_suppress_comparisons(*a),
            spec_suppress_comparisons(*b),
        ) {
            (None, None) => None,
            (Some(x), None) => Some(x),
            (None, Some(y)) => Some(y),
            (Some(x), Some(y)) => Some(SpecCondition::Or(Box::new(x), Box::new(y))),
        },
        _ => Some(c),
    }
}

fn suppress_comparisons(c: Condition) -> (r: Option<Condition>)
    ensures
        opt_cond(r) == spec_suppress_comparisons(c@),
    decreases c,
{
    match c {
        Condition::Equal(v1, v2) => {
            if is_data(&v1) && is_data(&v2) {
                if value_eq(&v1, &v2) {
                    None
                } else {
                    Some(Condition::False)
                }
            } else if attr_eq_attr(&v1, &v2) {
                None
            } else if binding_eq_attr(&v1, &v2) {
                None
            } else {
                Some(Condition::Equal(v1, v2))
            }
        },
        Condition::LessThan(v1, v2) => {
            if is_data(&v1) && is_data(&v2) {
                if data_lt(&v1, &v2) {
                    None
                } else {
                    Some(Condition::False)
                }
            } else {
                Some(Condition::LessThan(v1, v2))
            }
        },
        Condition::GreaterThan(v1, v2) => {
            if is_data(&v1) && is_data(&v2) {
                if data_lt(&v2, &v1) {
                    None
                } else {
                    Some(Condition::False)
                }
            } else {
                Some(Condition::GreaterThan(v1, v2))
            }
        },
        Condition::Fact(d) => match suppress_comparisons(*d) {
            None => None,
            Some(x) => Some(Condition::Fact(Box::new(x))),
        },
        Condition::Trait(t, d) => match suppress_comparisons(*d) {
            None => None,
            Some(x) => Some(Condition::Trait(t, Box::new(x))),
        },
        Condition::Not(d) => match suppress_comparisons(*d) {
            None => None,
            Some(x) => Some(Condition::Not(Box::new(x))),
        },
        Condition::And(a, b) => {
            let ra = suppress_comparisons(*a);
            let rb = suppress_comparisons(*b);
            match (ra, rb) {
                (None, None) => None,
                (Some(x), None) => Some(x),
                (None, Some(y)) => Some(y),
                (Some(x), Some(y)) => Some(Condition::And(Box::new(x), Box::new(y))),
            }
        },
        Condition::Or(a, b) => {
            let ra = suppress_comparisons(*a);
            let rb = suppress_comparisons(*b);
            match (ra, rb) {
                (None, None) => None,
                (Some(x), None) => Some(x),
                (None, Some(y)) => Some(y),
                (Some(x), Some(y)) => Some(Condition::Or(Box::new(x), Box::new(y))),
            }
        },
        other => Some(other),
    }
}

/// Decides comparisons whose operands are literal data or name the same
/// entity, eliminating tautologies and materialising contradictions.
pub struct ComparisonSuppression;

impl Processor for ComparisonSuppression {
    open spec fn accepts(&self, c: SpecCondition) -> bool {
        true
    }

    open spec fn spec_process(&self, c: SpecCondition) -> Option<SpecCondition> {
        spec_suppress_comparisons(c)
    }

    fn process(&self, condition: Condition) -> (r: Option<Condition>) {
        suppress_comparisons(condition)
    }
}

impl Recursive for ComparisonSuppression {
    proof fn process_stable(&self, c: SpecCondition) {
        lemma_suppress_comparisons_clean(c);
        match spec_suppress_comparisons(c) {
            None => {},
            Some(y) => match y {
                SpecCondition::Fact(d) => lemma_suppress_comparisons_fixpoint(*d),
                SpecCondition::Trait(_, d) => lemma_suppress_comparisons_fixpoint(*d),
                SpecCondition::Not(d) => lemma_suppress_comparisons_fixpoint(*d),
                SpecCondition::And(a, b) => {
                    lemma_suppress_comparisons_fixpoint(*a);
                    lemma_suppress_comparisons_fixpoint(*b);
                },
                SpecCondition::Or(a, b) => {
                    lemma_suppress_comparisons_fixpoint(*a);
                    lemma_suppress_comparisons_fixpoint(*b);
                },
                _ => {},
            },
        }
    }
}

// ---------------------------------------------------------------------------
// BooleanLiteralSuppression
// ---------------------------------------------------------------------------

/// Boolean literal suppression: in a conjunction, a `False` side eliminates
/// the whole conjunction and a `True` side is dropped; sub-trees are handled
/// first, and a conjunction one of whose sides is eliminated keeps the other.
/// Disjunctions are deliberately not rewritten against their literals.
pub open spec fn spec_suppress_literals(c: SpecCondition) -> Option<SpecCondition>
    decreases c,
{
    match c {
        SpecCondition::And(a, b) => match (spec_suppress_literals(*a), spec_suppress_literals(*b)) {
            (None, None) => None,
            (Some(x), None) => Some(x),
            (None, Some(y)) => Some(y),
            (Some(x), Some(y)) => {
                if x == SpecCondition::False || y == SpecCondition::False {
                    None
                } else if x == SpecCondition::True {
                    Some(y)
                } else if y == SpecCondition::True {
                    Some(x)
                } else {
                    Some(SpecCondition::And(Box::new(x), Box::new(y)))
                }
            },
        },
        SpecCondition::Or(a, b) => match (spec_suppress_literals(*a), spec_suppress_literals(*b)) {
            (None, None) => None,
            (Some(x), None) => Some(x),
            (None, Some(y)) => Some(y),
            (Some(x), Some(y)) => Some(SpecCondition::Or(Box::new(x), Box::new(y))),
        },
        SpecCondition::Fact(d) => match spec_suppress_literals(*d) {
            None => None,
            Some(x) => Some(SpecCondition::Fact(Box::new(x))),
        },
        SpecCondition::Trait(t, d) => match spec_suppress_literals(*d) {
            None => None,
            Some(x) => Some(SpecCondition::Trait(t, Box::new(x))),
        },
        SpecCondition::Not(d) => match spec_suppress_literals(*d) {
            None => None,
            Some(x) => Some(SpecCondition::Not(Box::new(x))),
        },
        _ => Some(c),
    }
}

fn is_true(c: &Condition) -> (r: bool)
    ensures
        r == (c@ == SpecCondition::True),
{
    matches!(c, Condition::True)
}

fn is_false(c: &Condition) -> (r: bool)
    ensures
        r == (c@ == SpecCondition::False),
{
    matches!(c, Condition::False)
}

fn suppress_literals(c: Condition) -> (r: Option<Condition>)
    ensures
        opt_cond(r) == spec_suppress_literals(c@),
    decreases c,
{
    match c {
        Condition::And(a, b) => {
            let ra = suppress_literals(*a);
            let rb = suppress_literals(*b);
            match (ra, rb) {
                (None, None) => None,
                (Some(x), None) => Some(x),
                (None, Some(y)) => Some(y),
                (Some(x), Some(y)) => {
                    if is_false(&x) || is_false(&y) {
                        None
                    } else if is_true(&x) {
                        Some(y)
                    } else if is_true(&y) {
                        Some(x)
                    } else {
                        Some(Condition::And(Box::new(x), Box::new(y)))
                    }
                },
            }
        },
        Condition::Or(a, b) => {
            let ra = suppress_literals(*a);
            let rb = suppress_literals(*b);
            match (ra, rb) {
                (None, None) => None,
                (Some(x), None) => Some(x),
                (None, Some(y)) => Some(y),
                (Some(x), Some(y)) => Some(Condition::Or(Box::new(x), Box::new(y))),
            }
        },
        Condition::Fact(d) => match suppress_literals(*d) {
            None => None,
            Some(x) => Some(Condition::Fact(Box::new(x))),
        },
        Condition::Trait(t, d) => match suppress_literals(*d) {
            None => None,
            Some(x) => Some(Condition::Trait(t, Box::new(x))),
        },
        Condition::Not(d) => match suppress_literals(*d) {
            None => None,
            Some(x) => Some(Condition::Not(Box::new(x))),
        },
        other => Some(other),
    }
}

/// Removes `True` conjuncts and eliminates conjunctions with a `False` side.
pub struct BooleanLiteralSuppression;

impl Processor for BooleanLiteralSuppression {
    open spec fn accepts(&self, c: SpecCondition) -> bool {
        true
    }

    open spec fn spec_process(&self, c: SpecCondition) -> Option<SpecCondition> {
        spec_suppress_literals(c)
    }

    fn process(&self, condition: Condition) -> (r: Option<Condition>) {
        suppress_literals(condition)
    }
}

impl Recursive for BooleanLiteralSuppression {
    proof fn process_stable(&self, c: SpecCondition) {
        lemma_suppress_literals_annihilates(c);
        match spec_suppress_literals(c) {
            None => {},
            Some(y) => match y {
                SpecCondition::Fact(d) => lemma_suppress_literals_fixpoint(*d),
                SpecCondition::Trait(_, d) => lemma_suppress_literals_fixpoint(*d),
                SpecCondition::Not(d) => lemma_suppress_literals_fixpoint(*d),
                SpecCondition::And(a, b) => {
                    lemma_suppress_literals_fixpoint(*a);
                    lemma_suppress_literals_fixpoint(*b);
                },
                SpecCondition::Or(a, b) => {
                    lemma_suppress_literals_fixpoint(*a);
                    lemma_suppress_literals_fixpoint(*b);
                },
                _ => {},
            },
        }
    }
}

// ---------------------------------------------------------------------------
// ImplicitFact
// ---------------------------------------------------------------------------

/// Fact wrapping: a tree not already rooted in `Fact(..)` is wrapped in one,
/// exactly once.
pub open spec fn spec_wrap_fact(c: SpecCondition) -> SpecCondition {
    if c is Fact {
        c
    } else {
        SpecCondition::Fact(Box::new(c))
    }
}

/// Canonicalises the root: every condition is ultimately evaluated against
/// facts, so a root that is not a `Fact(..)` scope is wrapped in one.
pub struct ImplicitFact;

impl Processor for ImplicitFact {
    open spec fn accepts(&self, c: SpecCondition) -> bool {
        true
    }

    open spec fn spec_process(&self, c: SpecCondition) -> Option<SpecCondition> {
        Some(spec_wrap_fact(c))
    }

    fn process(&self, condition: Condition) -> (r: Option<Condition>) {
        match condition {
            Condition::Fact(d) => Some(Condition::Fact(d)),
            other => Some(Condition::Fact(Box::new(other))),
        }
    }
}

// ---------------------------------------------------------------------------
// The full chain
// ---------------------------------------------------------------------------

/// The full rewrite chain: trait expansion, present/equal compaction,
/// comparison suppression, boolean literal suppression, fact wrapping.
/// An elimination at any stage short-circuits.
pub open spec fn spec_pipeline<R: TraitResolver>(res: R, c: SpecCondition) -> Option<
    SpecCondition,
> {
    match spec_suppress_comparisons(spec_compact(spec_expand_traits(res, c))) {
        None => None,
        Some(s) => match spec_suppress_literals(s) {
            None => None,
            Some(b) => Some(spec_wrap_fact(b)),
        },
    }
}

/// Run the full chain on a condition.
pub fn run_pipeline<R: TraitResolver>(expansion: &TraitsExpansion<R>, c: Condition) -> (r: Option<
    Condition,
>)
    requires
        spec_expandable(expansion.resolver, c@),
    ensures
        opt_cond(r) == spec_pipeline(expansion.resolver, c@),
{
    let e = expansion.expand(c);
    let p = compact_condition(e);
    match suppress_comparisons(p) {
        None => None,
        Some(s) => match suppress_literals(s) {
            None => None,
            Some(b) => match ImplicitFact.process(b) {
                None => None,
                Some(w) => Some(w),
            },
        },
    }
}

} // verus!
