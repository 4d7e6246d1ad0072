//! The example alerts that the cloud service's simulation mode loads into an
//! empty alert store.

use vstd::prelude::*;
use crate::labels::is_critical_label;

verus! {

/// One example alert: how many minutes before seeding it happened, its event
/// label and its confidence in percent.
pub struct SeedAlert {
    pub minutes_ago: i64,
    pub tipo_evento: &'static str,
    pub confianca: u32,
}

/// An example alert as plain values: (minutes ago, label, confidence in percent).
pub open spec fn seed_alert_view(alert: SeedAlert) -> (int, Seq<char>, int) {
    (alert.minutes_ago as int, alert.tipo_evento@, alert.confianca as int)
}

/// The six example alerts, most recent first.
pub open spec fn seed_catalog() -> Seq<(int, Seq<char>, int)> {
    seq![
        (3, "motosserra"@, 96),
        (11, "tiro"@, 91),
        (24, "motosserra"@, 88),
        (52, "tiro"@, 93),
        (66, "motosserra"@, 85),
        (88, "tiro"@, 89),
    ]
}

/// What seeding inserts into a store that already holds `existing_alerts`
/// alerts: nothing when it holds any, the whole catalog otherwise.
pub open spec fn seed_plan(existing_alerts: int) -> Seq<(int, Seq<char>, int)> {
    if existing_alerts > 0 {
        Seq::empty()
    } else {
        seed_catalog()
    }
}

/// The alerts to insert when simulation mode starts on a store that holds
/// `existing_alerts` alerts.
pub fn simulation_seed_plan(existing_alerts: i64) -> (plan: Vec<SeedAlert>)
    ensures
        plan@.map_values(|a: SeedAlert| seed_alert_view(a)) == seed_plan(existing_alerts as int),
{
    if existing_alerts > 0 {
        let plan: Vec<SeedAlert> = Vec::new();
        assert(plan@.map_values(|a: SeedAlert| seed_alert_view(a)) =~= seed_plan(existing_alerts as int));
        return plan;
    }
    let plan = vec![
        SeedAlert { minutes_ago: 3, tipo_evento: "motosserra", confianca: 96 },
        SeedAlert { minutes_ago: 11, tipo_evento: "tiro", confianca: 91 },
        SeedAlert { minutes_ago: 24, tipo_evento: "motosserra", confianca: 88 },
        SeedAlert { minutes_ago: 52, tipo_evento: "tiro", confianca: 93 },
        SeedAlert { minutes_ago: 66, tipo_evento: "motosserra", confianca: 85 },
        SeedAlert { minutes_ago: 88, tipo_evento: "tiro", confianca: 89 },
    ];
    assert(plan@.map_values(|a: SeedAlert| seed_alert_view(a)) =~= seed_plan(existing_alerts as int));
    plan
}

/// Seeding happens once per store: after a seeding run has inserted its
/// alerts, a second run inserts nothing.
pub proof fn law_seeding_happens_once(existing_alerts: int)
    requires
        existing_alerts >= 0,
    ensures
        seed_plan(existing_alerts + seed_plan(existing_alerts).len()).len() == 0,
{
}

/// Seeding only fills an empty store, and fills it with the whole catalog.
pub proof fn law_seeding_fills_only_empty_stores(existing_alerts: int)
    requires
        existing_alerts >= 0,
    ensures
        seed_plan(existing_alerts).len() > 0 <==> existing_alerts == 0,
        existing_alerts == 0 ==> seed_plan(existing_alerts).len() == 6,
{
}

/// Every example alert is of a kind that the service persists, happened
/// within the last 90 minutes, and the most recent one has a confidence above
/// 80%, so the panel shows its critical-alert banner.
pub proof fn law_seed_alerts_are_recent_critical_alerts()
    ensures
        forall|i: int| 0 <= i < seed_catalog().len() ==> is_critical_label(#[trigger] seed_catalog()[i].1),
        forall|i: int| 0 <= i < seed_catalog().len() ==> 0 < (#[trigger] seed_catalog()[i]).0 <= 90,
        forall|i: int| 0 <= i < seed_catalog().len() ==> seed_catalog()[0].0 <= (#[trigger] seed_catalog()[i]).0,
        seed_catalog()[0].2 > 80,
{
    let c = seed_catalog();
    assert forall|i: int| 0 <= i < c.len() implies is_critical_label(#[trigger] c[i].1) by {
        if i == 0 || i == 2 || i == 4 {
            assert(c[i].1 == "motosserra"@);
        } else {
            assert(c[i].1 == "tiro"@);
        }
    }
}

} // verus!
