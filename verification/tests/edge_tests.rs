use curupira::edge::{
    format_event_label, has_enough_audio, is_simulation_value, is_wav_file_name, next_sample,
    SimulationError,
};

#[test]
fn main_simulation_value_parser_accepts_expected_truthy_inputs() {
    assert!(is_simulation_value("1"));
    assert!(is_simulation_value("true"));
    assert!(is_simulation_value("TRUE"));
    assert!(is_simulation_value("yes"));
    assert!(is_simulation_value("YES"));
    assert!(!is_simulation_value("false"));
    assert!(!is_simulation_value("0"));
}

#[test]
fn format_event_label_maps_expected_names() {
    assert_eq!(format_event_label("tiro"), "Tiro");
    assert_eq!(format_event_label("desconhecido"), "Som desconhecido");
}

#[test]
fn edge_simulation_value_is_exact() {
    assert!(!is_simulation_value(" yes"));
    assert!(!is_simulation_value("on"));
    assert!(!is_simulation_value("True"));
    assert!(!is_simulation_value("Yes"));
}

#[test]
fn wav_files_are_recognised_by_extension() {
    assert!(is_wav_file_name("sample.wav"));
    assert!(is_wav_file_name("LOUD.WAV"));
    assert!(is_wav_file_name("archive.tar.Wav"));
    assert!(is_wav_file_name("..wav"));
    assert!(!is_wav_file_name("notes.txt"));
    assert!(!is_wav_file_name(".wav"));
    assert!(!is_wav_file_name("wav"));
    assert!(!is_wav_file_name("sample.wav.bak"));
    assert!(!is_wav_file_name("sample.wave"));
    assert!(!is_wav_file_name("sample."));
    assert!(!is_wav_file_name(".."));
}

#[test]
fn next_sample_picks_one_of_the_files() {
    let files = vec!["a.wav".to_string(), "b.wav".to_string(), "c.wav".to_string()];
    for _ in 0..20 {
        let picked = next_sample(&files).expect("a file should be picked");
        assert!(files.contains(picked));
    }
    let none: Vec<String> = Vec::new();
    assert_eq!(next_sample(&none), Err(SimulationError::NoSamples));
}

#[test]
fn one_second_of_audio_is_enough_to_send() {
    assert!(has_enough_audio(16_000, 16_000));
    assert!(!has_enough_audio(15_999, 16_000));
    assert!(has_enough_audio(0, 0));
}
