use curupira::labels::label_for_index;

#[test]
fn score_positions_map_to_classes() {
    assert_eq!(label_for_index(0), "ambiente");
    assert_eq!(label_for_index(1), "chuva");
    assert_eq!(label_for_index(2), "motosserra");
    assert_eq!(label_for_index(3), "tiro");
    assert_eq!(label_for_index(4), "desconhecido");
    assert_eq!(label_for_index(usize::MAX), "desconhecido");
}
