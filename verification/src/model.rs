//! Facts and their identifiers, attributes, traits (reusable bundles of
//! attribute patterns), and the resolver capability that maps a trait name to
//! its definition.

use vstd::prelude::*;

use crate::bytes::bytes_eq;

verus! {

/// An opaque, copy-cheap unique identity for facts with a canonical byte view.
pub trait Identifier: PartialEq + Eq + core::hash::Hash + Clone + Copy {
    /// The canonical bytes of this identifier.
    spec fn id_bytes(&self) -> Seq<u8>;

    /// A fresh, globally unique identifier. Nothing can be promised of the
    /// value itself: distinctness is probabilistic.
    fn generate() -> Self;

    /// The canonical byte view; identical across calls for one identifier.
    fn identifier(&self) -> (r: &[u8])
        ensures
            r@ == self.id_bytes(),
    ;
}

/// An identified unit to which attributes are attached; wraps exactly one
/// identifier and has no other state.
#[derive(PartialEq, Eq, Hash, Clone, Copy)]
pub struct Fact<I: Identifier>(I);

impl<I: Identifier> Fact<I> {
    /// The identifier this fact wraps.
    pub closed spec fn spec_identifier(&self) -> I {
        self.0
    }

    /// A fact with a freshly generated identifier.
    pub fn new() -> Self {
        Fact::new_with_identifier(Identifier::generate())
    }

    /// A fact wrapping the supplied identifier.
    pub fn new_with_identifier(identifier: I) -> (r: Self)
        ensures
            r.spec_identifier() == identifier,
    {
        Fact(identifier)
    }

    /// The canonical bytes of this fact's identifier.
    pub fn identifier(&self) -> (r: &[u8])
        ensures
            r@ == self.spec_identifier().id_bytes(),
    {
        self.0.identifier()
    }
}

/// Relies on uuid::Uuid::new_v4 to draw a fresh random 128-bit identifier, and
/// on uuid::Uuid::as_bytes for its 16 canonical bytes. The value is random, so
/// nothing is stated of it.
#[verifier::external_body]
fn fresh_uuid_bytes() -> [u8; 16] {
    *uuid::Uuid::new_v4().as_bytes()
}

/// A 128-bit random identifier in its 16-byte canonical form.
#[derive(PartialEq, Eq, Hash, Clone, Copy)]
pub struct UuidIdentifier([u8; 16]);

impl Identifier for UuidIdentifier {
    closed spec fn id_bytes(&self) -> Seq<u8> {
        self.0@
    }

    fn generate() -> Self {
        UuidIdentifier(fresh_uuid_bytes())
    }

    fn identifier(&self) -> (r: &[u8]) {
        self.0.as_slice()
    }
}

/// The canonical form of the default random identifier is its 16 bytes.
pub proof fn lemma_uuid_identifier_sixteen_bytes(id: UuidIdentifier)
    ensures
        id.id_bytes().len() == 16,
{
}

/// A named byte value attached to a fact.
pub struct Attribute(Vec<u8>, Vec<u8>);

impl View for Attribute {
    type V = (Seq<u8>, Seq<u8>);

    closed spec fn view(&self) -> (Seq<u8>, Seq<u8>) {
        (self.0@, self.1@)
    }
}

impl Attribute {
    /// An attribute with the given name and value.
    pub fn new(name: Vec<u8>, value: Vec<u8>) -> (r: Self)
        ensures
            r@ == (name@, value@),
    {
        Attribute(name, value)
    }
}

/// Mathematical counterpart of `TraitPattern`.
pub struct SpecTraitPattern {
    pub name: Seq<u8>,
    pub value: Option<Seq<u8>>,
}

/// A single requirement of a trait: the named attribute must be present
/// (no value), or must equal the given value.
#[derive(Clone)]
pub struct TraitPattern(pub Vec<u8>, pub Option<Vec<u8>>);

impl View for TraitPattern {
    type V = SpecTraitPattern;

    open spec fn view(&self) -> SpecTraitPattern {
        SpecTraitPattern {
            name: self.0@,
            value: match self.1 {
                Some(v) => Some(v@),
                None => None,
            },
        }
    }
}

impl From<(Vec<u8>, Option<Vec<u8>>)> for TraitPattern {
    fn from(p: (Vec<u8>, Option<Vec<u8>>)) -> (r: Self) {
        TraitPattern(p.0, p.1)
    }
}

impl vstd::std_specs::convert::FromSpecImpl<(Vec<u8>, Option<Vec<u8>>)> for TraitPattern {
    open spec fn obeys_from_spec() -> bool {
        true
    }

    open spec fn from_spec(p: (Vec<u8>, Option<Vec<u8>>)) -> TraitPattern {
        TraitPattern(p.0, p.1)
    }
}

/// An ordered sequence of trait patterns; order matters for deterministic
/// expansion output, not for semantics.
#[derive(Clone)]
pub struct Trait(pub Vec<TraitPattern>);

impl View for Trait {
    type V = Seq<SpecTraitPattern>;

    open spec fn view(&self) -> Seq<SpecTraitPattern> {
        self.0@.map_values(|p: TraitPattern| p@)
    }
}

impl From<Vec<TraitPattern>> for Trait {
    fn from(v: Vec<TraitPattern>) -> (r: Self) {
        Trait(v)
    }
}

impl vstd::std_specs::convert::FromSpecImpl<Vec<TraitPattern>> for Trait {
    open spec fn obeys_from_spec() -> bool {
        true
    }

    open spec fn from_spec(v: Vec<TraitPattern>) -> Trait {
        Trait(v)
    }
}

impl Trait {
    /// How many patterns this trait requires.
    pub fn len(&self) -> (n: usize)
        ensures
            n == self@.len(),
    {
        self.0.len()
    }

    /// The pattern at the given position.
    pub fn get(&self, i: usize) -> (p: &TraitPattern)
        requires
            i < self@.len(),
        ensures
            p@ == self@[i as int],
    {
        &self.0[i]
    }

    /// The patterns of this trait, in declared order.
    pub fn iter(&self) -> (r: &[TraitPattern])
        ensures
            r@.map_values(|p: TraitPattern| p@) == self@,
    {
        self.0.as_slice()
    }
}

/// Maps a trait name to its definition. Resolution must be deterministic for
/// the lifetime of a rewrite; a name the capability does not cover is a caller
/// error, ruled out by `resolves`.
pub trait TraitResolver {
    /// Whether this resolver covers the given trait name.
    spec fn resolves(&self, name: Seq<u8>) -> bool;

    /// The patterns the given trait name stands for.
    spec fn spec_resolve(&self, name: Seq<u8>) -> Seq<SpecTraitPattern>;

    /// The definition of the named trait.
    fn resolve(&self, name: Vec<u8>) -> (r: &Trait)
        requires
            self.resolves(name@),
        ensures
            r@ == self.spec_resolve(name@),
    ;
}

/// First match in a list of (name, patterns) entries.
pub open spec fn lookup(
    entries: Seq<(Seq<u8>, Seq<SpecTraitPattern>)>,
    name: Seq<u8>,
) -> Option<Seq<SpecTraitPattern>>
    decreases entries.len(),
{
    if entries.len() == 0 {
        None
    } else if entries[0].0 == name {
        Some(entries[0].1)
    } else {
        lookup(entries.skip(1), name)
    }
}

/// A resolver backed by a list of (name, trait) entries; the first entry with
/// a matching name wins.
pub struct TableResolver {
    entries: Vec<(Vec<u8>, Trait)>,
}

impl TableResolver {
    /// The entries as (name, patterns) pairs, in order.
    pub closed spec fn entries_view(&self) -> Seq<(Seq<u8>, Seq<SpecTraitPattern>)> {
        self.entries@.map_values(|e: (Vec<u8>, Trait)| (e.0@, e.1@))
    }

    /// An empty resolver.
    pub fn new() -> (r: Self)
        ensures
            r.entries_view() == Seq::<(Seq<u8>, Seq<SpecTraitPattern>)>::empty(),
    {
        let r = TableResolver { entries: Vec::new() };
        proof {
            assert(r.entries_view() =~= Seq::<(Seq<u8>, Seq<SpecTraitPattern>)>::empty());
        }
        r
    }

    /// Add a definition for a trait name at the end of the table.
    pub fn define(&mut self, name: Vec<u8>, t: Trait)
        ensures
            final(self).entries_view() == old(self).entries_view().push((name@, t@)),
    {
        let ghost before = self.entries_view();
        self.entries.push((name, t));
        proof {
            assert(self.entries_view() =~= before.push(
                (self.entries@.last().0@, self.entries@.last().1@),
            ));
        }
    }
}

impl TraitResolver for TableResolver {
    open spec fn resolves(&self, name: Seq<u8>) -> bool {
        lookup(self.entries_view(), name) is Some
    }

    open spec fn spec_resolve(&self, name: Seq<u8>) -> Seq<SpecTraitPattern> {
        lookup(self.entries_view(), name)->Some_0
    }

    fn resolve(&self, name: Vec<u8>) -> (r: &Trait) {
        let n = self.entries.len();
        let mut i: usize = 0;
        proof {
            assert(self.entries_view().skip(0) =~= self.entries_view());
        }
        while i < n
            invariant
                i <= n,
                n == self.entries@.len(),
                lookup(self.entries_view(), name@) == lookup(
                    self.entries_view().skip(i as int),
                    name@,
                ),
                lookup(self.entries_view(), name@) is Some,
            decreases n - i,
        {
            proof {
                assert(self.entries_view()[i as int] == (
                    self.entries@[i as int].0@,
                    self.entries@[i as int].1@,
                ));
                assert(self.entries_view().skip(i as int)[0] == self.entries_view()[i as int]);
            }
            if bytes_eq(&self.entries[i].0, &name) {
                return &self.entries[i].1;
            }
            proof {
                assert(self.entries_view().skip(i as int).skip(1) =~= self.entries_view().skip(
                    i + 1,
                ));
            }
            i = i + 1;
        }
        proof {
            assert(self.entries_view().skip(n as int) =~= Seq::<
                (Seq<u8>, Seq<SpecTraitPattern>),
            >::empty());
        }
        vstd::pervasive::unreached()
    }
}

} // verus!
