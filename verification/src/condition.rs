//! The recursive condition algebra: scoping (`Fact`, `Trait`), boolean
//! connectives, and comparison predicates over tagged byte-string values.

use vstd::prelude::*;

verus! {

/// Mathematical counterpart of `Value`: a predicate operand over byte strings.
pub enum SpecValue {
    Data(Seq<u8>),
    Binding(Seq<u8>),
    Attribute(Seq<u8>),
    AttributeTxid(Seq<u8>),
}

/// Mathematical counterpart of `Condition`.
pub enum SpecCondition {
    Fact(Box<SpecCondition>),
    Not(Box<SpecCondition>),
    And(Box<SpecCondition>, Box<SpecCondition>),
    Or(Box<SpecCondition>, Box<SpecCondition>),
    Trait(Seq<u8>, Box<SpecCondition>),
    Present(SpecValue),
    Equal(SpecValue, SpecValue),
    LessThan(SpecValue, SpecValue),
    GreaterThan(SpecValue, SpecValue),
    True,
    False,
}

/// A tagged atom appearing in predicates: literal data, a named logical
/// binding, an attribute name reference, or an attribute transaction id.
#[derive(Debug, Clone, PartialEq, PartialOrd)]
pub enum Value {
    Data(Vec<u8>),
    Binding(Vec<u8>),
    Attribute(Vec<u8>),
    AttributeTxid(Vec<u8>),
}

/// A recursive condition over facts: scoping, boolean logic, and predicates.
#[derive(Debug, PartialEq)]
pub enum Condition {
    // Fact scoping
    Fact(Box<Condition>),
    // Boolean logic
    Not(Box<Condition>),
    And(Box<Condition>, Box<Condition>),
    Or(Box<Condition>, Box<Condition>),
    // Trait scoping
    Trait(Vec<u8>, Box<Condition>),
    // Predicates
    Present(Value),
    Equal(Value, Value),
    LessThan(Value, Value),
    GreaterThan(Value, Value),
    True,
    False,
}

impl View for Value {
    type V = SpecValue;

    open spec fn view(&self) -> SpecValue {
        match self {
            Value::Data(v) => SpecValue::Data(v@),
            Value::Binding(v) => SpecValue::Binding(v@),
            Value::Attribute(v) => SpecValue::Attribute(v@),
            Value::AttributeTxid(v) => SpecValue::AttributeTxid(v@),
        }
    }
}

/// The condition tree a `Condition` stands for, node by node.
pub open spec fn cond_view(c: Condition) -> SpecCondition
    decreases c,
{
    match c {
        Condition::Fact(d) => SpecCondition::Fact(Box::new(cond_view(*d))),
        Condition::Not(d) => SpecCondition::Not(Box::new(cond_view(*d))),
        Condition::And(a, b) => SpecCondition::And(
            Box::new(cond_view(*a)),
            Box::new(cond_view(*b)),
        ),
        Condition::Or(a, b) => SpecCondition::Or(
            Box::new(cond_view(*a)),
            Box::new(cond_view(*b)),
        ),
        Condition::Trait(t, d) => SpecCondition::Trait(t@, Box::new(cond_view(*d))),
        Condition::Present(v) => SpecCondition::Present(v@),
        Condition::Equal(v1, v2) => SpecCondition::Equal(v1@, v2@),
        Condition::LessThan(v1, v2) => SpecCondition::LessThan(v1@, v2@),
        Condition::GreaterThan(v1, v2) => SpecCondition::GreaterThan(v1@, v2@),
        Condition::True => SpecCondition::True,
        Condition::False => SpecCondition::False,
    }
}

impl View for Condition {
    type V = SpecCondition;

    open spec fn view(&self) -> SpecCondition {
        cond_view(*self)
    }
}

impl Condition {
    /// Negation of a condition.
    #[inline]
    pub fn not(cond: Condition) -> (r: Self)
        ensures
            r@ == SpecCondition::Not(Box::new(cond@)),
    {
        Condition::Not(Box::new(cond))
    }

    /// Conjunction of this condition with a second one.
    #[inline]
    pub fn and(self, c2: Condition) -> (r: Self)
        ensures
            r@ == SpecCondition::And(Box::new(self@), Box::new(c2@)),
    {
        Condition::And(Box::new(self), Box::new(c2))
    }

    /// Disjunction of this condition with a second one.
    #[inline]
    pub fn or(self, c2: Condition) -> (r: Self)
        ensures
            r@ == SpecCondition::Or(Box::new(self@), Box::new(c2@)),
    {
        Condition::Or(Box::new(self), Box::new(c2))
    }

    /// Scope a condition to facts carrying the named trait.
    #[inline]
    pub fn trait_scope(t: Vec<u8>, c: Condition) -> (r: Self)
        ensures
            r@ == SpecCondition::Trait(t@, Box::new(c@)),
    {
        Condition::Trait(t, Box::new(c))
    }

    /// Scope a condition to a single fact.
    #[inline]
    pub fn fact(c: Condition) -> (r: Self)
        ensures
            r@ == SpecCondition::Fact(Box::new(c@)),
    {
        Condition::Fact(Box::new(c))
    }
}

} // verus!
