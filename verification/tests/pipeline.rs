use viewdb::condition::Condition;
use viewdb::condition::Value;
use viewdb::model::TableResolver;
use viewdb::model::Trait;
use viewdb::model::TraitPattern;
use viewdb::processing::BooleanLiteralSuppression;
use viewdb::processing::ComparisonSuppression;
use viewdb::processing::ImplicitFact;
use viewdb::processing::PresentEqualCompaction;
use viewdb::processing::Processor;
use viewdb::processing::ProcessorExtension;
use viewdb::processing::Recursive;
use viewdb::processing::run_pipeline;
use viewdb::processing::TraitsExpansion;

fn bv(s: &str) -> Vec<u8> {
    s.as_bytes().to_vec()
}

fn attr(s: &str) -> Value {
    Value::Attribute(bv(s))
}

fn data(s: &str) -> Value {
    Value::Data(bv(s))
}

fn binding(s: &str) -> Value {
    Value::Binding(bv(s))
}

fn pattern(name: &str, value: Option<&str>) -> TraitPattern {
    TraitPattern::from((bv(name), value.map(bv)))
}

fn single_pattern_resolver(trait_name: &str, attr_name: &str) -> TableResolver {
    let mut resolver = TableResolver::new();
    resolver.define(bv(trait_name), Trait::from(vec![pattern(attr_name, None)]));
    resolver
}

#[test]
fn it_works() {
    let cond = Condition::trait_scope(
        bv("Object"),
        Condition::Equal(attr("https://viewdb.org/attributes#object"), data("123")),
    )
    .and(Condition::trait_scope(
        bv("NameChanged"),
        Condition::Equal(attr("https://viewdb.org/attributes#value"), binding("Name")),
    ))
    .and(Condition::trait_scope(
        bv("Timestamp"),
        Condition::Equal(attr("https://viewdb.org/attributes#timestamp"), binding("Timestamp")),
    ));

    let object = Trait::from(vec![pattern("https://viewdb.org/attributes#object", None)]);
    let name_changed = Trait::from(vec![
        pattern("https://viewdb.org/attributes#factType", Some("NameChanged")),
        pattern("https://viewdb.org/attributes#value", None),
    ]);
    let timestamp = Trait::from(vec![pattern("https://viewdb.org/attributes#timestamp", None)]);

    let mut resolver = TableResolver::new();
    resolver.define(bv("Object"), object);
    resolver.define(bv("NameChanged"), name_changed);
    resolver.define(bv("Timestamp"), timestamp);
    let te = TraitsExpansion::new(resolver);

    let cond1 = te
        .process(cond)
        .after_that(PresentEqualCompaction)
        .after_that(ComparisonSuppression)
        .after_that(BooleanLiteralSuppression)
        .after_that(ImplicitFact)
        .unwrap();

    println!("{:#?}", cond1);
}

#[test]
fn trait_expansion_single_present() {
    let te = TraitsExpansion::new(single_pattern_resolver("T", "a"));
    let cond = Condition::trait_scope(bv("T"), Condition::Equal(binding("x"), attr("a")));
    let expanded = te.process(cond).unwrap();
    let expected =
        Condition::Equal(binding("x"), attr("a")).and(Condition::Present(attr("a")));
    assert_eq!(expanded, expected);
}

#[test]
fn present_equal_compaction_absorbs() {
    let te = TraitsExpansion::new(single_pattern_resolver("T", "a"));
    let cond = Condition::trait_scope(bv("T"), Condition::Equal(binding("x"), attr("a")));
    let compacted = te.process(cond).after_that(PresentEqualCompaction).unwrap();
    assert_eq!(compacted, Condition::Equal(binding("x"), attr("a")));
}

#[test]
fn compaction_reaches_nested_presence() {
    let cond = Condition::Present(attr("a"))
        .and(
            Condition::Equal(attr("a"), data("z"))
                .and(Condition::Present(attr("b")).and(Condition::Equal(attr("b"), data("w")))),
        )
        .and(Condition::True);
    let compacted = PresentEqualCompaction.process(cond).unwrap();
    let expected = Condition::Equal(attr("a"), data("z"))
        .and(Condition::Equal(attr("b"), data("w")))
        .and(Condition::True);
    assert_eq!(compacted, expected);
}

#[test]
fn comparison_tautology() {
    let cond =
        Condition::Equal(data("v"), data("v")).and(Condition::Present(attr("a")));
    let suppressed = ComparisonSuppression.process(cond).unwrap();
    assert_eq!(suppressed, Condition::Present(attr("a")));
}

#[test]
fn comparison_contradiction_eliminates() {
    let cond =
        Condition::Equal(data("x"), data("y")).and(Condition::Present(attr("a")));
    let suppressed = ComparisonSuppression.process(cond).unwrap();
    let expected = Condition::False.and(Condition::Present(attr("a")));
    assert_eq!(suppressed, expected);
    let gone = BooleanLiteralSuppression.process(expected);
    assert!(gone.is_none());
}

#[test]
fn full_pipeline_nested_traits() {
    let te = TraitsExpansion::new(nested_traits_resolver());
    let out = te
        .process(nested_traits_condition())
        .after_that(PresentEqualCompaction)
        .after_that(ComparisonSuppression)
        .after_that(BooleanLiteralSuppression)
        .after_that(ImplicitFact)
        .unwrap();
    assert_eq!(out, nested_traits_expected());
}

#[test]
fn implicit_fact_idempotent() {
    let rooted = Condition::fact(Condition::Present(attr("a")));
    let out = ImplicitFact.process(rooted).unwrap();
    assert_eq!(out, Condition::fact(Condition::Present(attr("a"))));

    let bare = Condition::Present(attr("a"));
    let wrapped = ImplicitFact.process(bare).unwrap();
    assert_eq!(wrapped, Condition::fact(Condition::Present(attr("a"))));
}

#[test]
fn ordering_comparisons_are_lexicographic() {
    assert!(ComparisonSuppression
        .process(Condition::LessThan(data("abc"), data("abd")))
        .is_none());
    assert_eq!(
        ComparisonSuppression.process(Condition::LessThan(data("abd"), data("abc"))),
        Some(Condition::False)
    );
    assert_eq!(
        ComparisonSuppression.process(Condition::LessThan(data("a"), data("a"))),
        Some(Condition::False)
    );
    assert!(ComparisonSuppression
        .process(Condition::LessThan(data("a"), data("ab")))
        .is_none());
    assert!(ComparisonSuppression
        .process(Condition::GreaterThan(data("b"), data("ab")))
        .is_none());
    assert_eq!(
        ComparisonSuppression.process(Condition::GreaterThan(data("ab"), data("b"))),
        Some(Condition::False)
    );
}

#[test]
fn same_entity_equalities_are_eliminated() {
    assert!(ComparisonSuppression
        .process(Condition::Equal(attr("a"), attr("a")))
        .is_none());
    assert_eq!(
        ComparisonSuppression.process(Condition::Equal(attr("a"), attr("b"))),
        Some(Condition::Equal(attr("a"), attr("b")))
    );
    assert!(ComparisonSuppression
        .process(Condition::Equal(binding("a"), attr("a")))
        .is_none());
    assert_eq!(
        ComparisonSuppression.process(Condition::Equal(binding("a"), attr("b"))),
        Some(Condition::Equal(binding("a"), attr("b")))
    );
}

#[test]
fn boolean_literals_inside_conjunctions() {
    let kept = BooleanLiteralSuppression
        .process(Condition::True.and(Condition::Present(attr("a"))))
        .unwrap();
    assert_eq!(kept, Condition::Present(attr("a")));

    let nested = BooleanLiteralSuppression
        .process(Condition::True.and(Condition::True.and(Condition::Present(attr("a")))))
        .unwrap();
    assert_eq!(nested, Condition::Present(attr("a")));

    assert!(BooleanLiteralSuppression
        .process(Condition::Present(attr("a")).and(Condition::False))
        .is_none());
}

#[test]
fn recursive_traversal_drops_eliminated_branches() {
    let cond = Condition::fact(Condition::True.and(Condition::Present(attr("a"))));
    let out = BooleanLiteralSuppression.process_recursively(cond).unwrap();
    assert_eq!(out, Condition::fact(Condition::Present(attr("a"))));

    let gone = BooleanLiteralSuppression
        .process_recursively(Condition::not(Condition::False.and(Condition::True)));
    assert!(gone.is_none());
}

fn nested_traits_resolver() -> TableResolver {
    let mut resolver = TableResolver::new();
    resolver.define(bv("Object"), Trait::from(vec![pattern("#object", None)]));
    resolver.define(
        bv("NameChanged"),
        Trait::from(vec![
            pattern("#factType", Some("NameChanged")),
            pattern("#value", None),
        ]),
    );
    resolver.define(bv("Timestamp"), Trait::from(vec![pattern("#timestamp", None)]));
    resolver
}

fn nested_traits_condition() -> Condition {
    Condition::trait_scope(bv("Object"), Condition::Equal(attr("#object"), data("123")))
        .and(Condition::trait_scope(
            bv("NameChanged"),
            Condition::Equal(attr("#value"), binding("Name")),
        ))
        .and(Condition::trait_scope(
            bv("Timestamp"),
            Condition::Equal(attr("#timestamp"), binding("Timestamp")),
        ))
}

fn nested_traits_expected() -> Condition {
    Condition::fact(
        Condition::Equal(attr("#object"), data("123"))
            .and(
                Condition::Equal(attr("#value"), binding("Name"))
                    .and(Condition::Equal(attr("#factType"), data("NameChanged"))),
            )
            .and(Condition::Equal(attr("#timestamp"), binding("Timestamp"))),
    )
}

#[test]
fn pipeline_runs_are_identical() {
    let te1 = TraitsExpansion::new(nested_traits_resolver());
    let te2 = TraitsExpansion::new(nested_traits_resolver());
    let out1 = run_pipeline(&te1, nested_traits_condition());
    let out2 = run_pipeline(&te2, nested_traits_condition());
    assert_eq!(out1, out2);
    assert_eq!(out1, Some(nested_traits_expected()));
}

#[test]
fn pipeline_fixpoint_on_own_output() {
    let te = TraitsExpansion::new(nested_traits_resolver());
    let again = run_pipeline(&te, nested_traits_expected());
    assert_eq!(again, Some(nested_traits_expected()));
}

#[test]
fn elimination_short_circuits_the_chain() {
    let none: Option<Condition> = None;
    assert!(none.after_that(ImplicitFact).is_none());

    let eliminated = ComparisonSuppression
        .process(Condition::Equal(data("v"), data("v")))
        .after_that(BooleanLiteralSuppression)
        .after_that(ImplicitFact);
    assert!(eliminated.is_none());
}
