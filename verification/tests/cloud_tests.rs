use curupira::cloud::{format_event_label, is_file_field, is_simulation_value, should_persist};

#[test]
fn format_event_label_maps_known_and_unknown_labels() {
    assert_eq!(format_event_label("motosserra"), "Motosserra");
    assert_eq!(format_event_label("ambiente"), "Som ambiente");
    assert_eq!(format_event_label("algo-novo"), "Som desconhecido");
}

#[test]
fn simulation_value_parser_accepts_expected_truthy_inputs() {
    assert!(is_simulation_value("1"));
    assert!(is_simulation_value("true"));
    assert!(is_simulation_value("TRUE"));
    assert!(is_simulation_value("yes"));
    assert!(is_simulation_value("on"));
    assert!(!is_simulation_value("false"));
    assert!(!is_simulation_value("0"));
}

#[test]
fn cloud_simulation_value_ignores_surrounding_whitespace_and_case() {
    assert!(is_simulation_value("  On\n"));
    assert!(is_simulation_value("\u{a0}YeS\u{3000}"));
    assert!(is_simulation_value("\tTrUe "));
    assert!(!is_simulation_value("o n"));
    assert!(!is_simulation_value(""));
    assert!(!is_simulation_value("   "));
    assert!(!is_simulation_value("yes!"));
}

#[test]
fn cloud_format_event_label_covers_every_known_label() {
    assert_eq!(format_event_label("tiro"), "Tiro");
    assert_eq!(format_event_label("chuva"), "Chuva");
    assert_eq!(format_event_label("Motosserra"), "Som desconhecido");
    assert_eq!(format_event_label(""), "Som desconhecido");
}

#[test]
fn only_chainsaw_and_gunshot_are_persisted() {
    assert!(should_persist("motosserra"));
    assert!(should_persist("tiro"));
    assert!(!should_persist("chuva"));
    assert!(!should_persist("ambiente"));
    assert!(!should_persist("desconhecido"));
    assert!(!should_persist("TIRO"));
}

#[test]
fn upload_field_must_be_named_file() {
    assert!(is_file_field(Some("file")));
    assert!(!is_file_field(Some("audio")));
    assert!(!is_file_field(Some("File")));
    assert!(!is_file_field(None));
}

#[test]
fn every_edge_simulation_value_enables_the_cloud_too() {
    for value in ["1", "true", "TRUE", "yes", "YES"] {
        assert!(curupira::edge::is_simulation_value(value));
        assert!(is_simulation_value(value));
    }
}

#[test]
fn stored_alerts_are_shown_as_chainsaw_or_gunshot() {
    for label in ["motosserra", "tiro", "chuva", "ambiente", "desconhecido"] {
        let name = format_event_label(label);
        assert_eq!(should_persist(label), name == "Motosserra" || name == "Tiro");
    }
}
