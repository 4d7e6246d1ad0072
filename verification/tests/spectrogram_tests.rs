use curupira::spectrogram::{frame_window, frames_fit_signal, mel_band};

#[test]
fn mel_bands_split_fft_bins_evenly() {
    assert_eq!(mel_band(0, 8), (0, 64));
    assert_eq!(mel_band(1, 8), (64, 128));
    assert_eq!(mel_band(7, 8), (448, 512));
    assert_eq!(mel_band(0, 64), (0, 8));
    assert_eq!(mel_band(63, 64), (504, 512));
}

#[test]
fn mel_band_is_never_empty() {
    assert_eq!(mel_band(0, 1024), (0, 1));
    assert_eq!(mel_band(1, 1024), (0, 1));
    assert_eq!(mel_band(3, 1024), (1, 2));
}

#[test]
fn frame_windows_hop_and_clip() {
    assert_eq!(frame_window(0, 2048), (0, 1024));
    assert_eq!(frame_window(1, 2048), (512, 1536));
    assert_eq!(frame_window(3, 2048), (1536, 2048));
    assert_eq!(frame_window(4, 2048), (2048, 2048));
    assert_eq!(frame_window(0, 100), (0, 100));
}

#[test]
fn frames_must_start_inside_the_signal() {
    assert!(frames_fit_signal(2048, 4));
    assert!(frames_fit_signal(0, 64));
    assert!(frames_fit_signal(100, 0));
    assert!(frames_fit_signal(32_256, 64));
    assert!(!frames_fit_signal(32_255, 64));
    assert!(!frames_fit_signal(100, 2));
}
