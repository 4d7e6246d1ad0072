use curupira::seed::simulation_seed_plan;

#[test]
fn seed_plan_for_empty_store_lists_the_six_examples() {
    let plan = simulation_seed_plan(0);
    let got: Vec<(i64, &str, u32)> =
        plan.iter().map(|a| (a.minutes_ago, a.tipo_evento, a.confianca)).collect();
    assert_eq!(
        got,
        vec![
            (3, "motosserra", 96),
            (11, "tiro", 91),
            (24, "motosserra", 88),
            (52, "tiro", 93),
            (66, "motosserra", 85),
            (88, "tiro", 89),
        ]
    );
}

#[test]
fn seed_plan_skips_store_with_alerts() {
    assert!(simulation_seed_plan(1).is_empty());
    assert!(simulation_seed_plan(42).is_empty());
}

#[test]
fn seeding_twice_inserts_only_once() {
    let first = simulation_seed_plan(0);
    let second = simulation_seed_plan(first.len() as i64);
    assert_eq!(first.len(), 6);
    assert_eq!(second.len(), 0);
}
