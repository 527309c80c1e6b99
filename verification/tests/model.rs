use viewdb::dispatch::needs_fallback;
use viewdb::dispatch::resolve_dispatch;
use viewdb::dispatch::HandleOutcome;
use viewdb::model::Attribute;
use viewdb::model::Fact;
use viewdb::model::Identifier;
use viewdb::model::TableResolver;
use viewdb::model::Trait;
use viewdb::model::TraitPattern;
use viewdb::model::TraitResolver;
use viewdb::model::UuidIdentifier;

fn bv(s: &str) -> Vec<u8> {
    s.as_bytes().to_vec()
}

#[test]
fn lib_it_works() {
}

#[test]
fn fact_identifiers_distinct() {
    let fact1 = Fact::<UuidIdentifier>::new();
    let fact2 = Fact::<UuidIdentifier>::new();
    assert!(fact1.identifier() != fact2.identifier());
}

#[test]
fn fact_identifier_is_canonical_bytes() {
    let fact = Fact::<UuidIdentifier>::new();
    assert_eq!(fact.identifier().len(), 16);
    let id = UuidIdentifier::generate();
    let copy = Fact::new_with_identifier(id);
    let again = Fact::new_with_identifier(id);
    assert_eq!(copy.identifier(), id.identifier());
    assert!(copy == again);
}

#[test]
fn attribute_construction() {
    let _attribute = Attribute::new(bv("name"), bv("value"));
}

#[test]
fn trait_patterns_in_declared_order() {
    let t = Trait::from(vec![
        TraitPattern::from((bv("a"), None)),
        TraitPattern::from((bv("b"), Some(bv("v")))),
    ]);
    assert_eq!(t.len(), 2);
    assert_eq!(t.get(0).0, bv("a"));
    assert!(t.get(0).1.is_none());
    assert_eq!(t.get(1).0, bv("b"));
    assert_eq!(t.get(1).1, Some(bv("v")));
    let patterns = t.iter();
    assert_eq!(patterns.len(), 2);
    assert_eq!(patterns[1].0, bv("b"));
}

#[test]
fn table_resolver_first_match_wins() {
    let mut resolver = TableResolver::new();
    resolver.define(bv("T"), Trait::from(vec![TraitPattern::from((bv("a"), None))]));
    resolver.define(bv("U"), Trait::from(vec![TraitPattern::from((bv("b"), None))]));
    resolver.define(bv("T"), Trait::from(vec![TraitPattern::from((bv("c"), None))]));

    let t = resolver.resolve(bv("T"));
    assert_eq!(t.len(), 1);
    assert_eq!(t.get(0).0, bv("a"));

    let u = resolver.resolve(bv("U"));
    assert_eq!(u.get(0).0, bv("b"));
}

#[test]
fn dispatch_local_decision_stands() {
    let local: HandleOutcome<u32> = HandleOutcome::Handled;
    assert!(!needs_fallback(&local));
    assert_eq!(resolve_dispatch(local, HandleOutcome::Unhandled, 7), HandleOutcome::Handled);

    let failed: HandleOutcome<u32> = HandleOutcome::Failed(3);
    assert_eq!(resolve_dispatch(failed, HandleOutcome::Handled, 7), HandleOutcome::Failed(3));
}

#[test]
fn dispatch_falls_back_when_unhandled() {
    let local: HandleOutcome<u32> = HandleOutcome::Unhandled;
    assert!(needs_fallback(&local));
    assert_eq!(
        resolve_dispatch(local, HandleOutcome::Handled, 7),
        HandleOutcome::<u32>::Handled
    );
    assert_eq!(
        resolve_dispatch(HandleOutcome::Unhandled, HandleOutcome::Failed(3), 7),
        HandleOutcome::<u32>::Failed(3)
    );
    assert_eq!(
        resolve_dispatch(HandleOutcome::Unhandled, HandleOutcome::Unhandled, 7),
        HandleOutcome::<u32>::Failed(7)
    );
}
