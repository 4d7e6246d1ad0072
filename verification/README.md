# Curupira

Environmental sound monitoring: an edge sentinel captures microphone audio
(or replays `.wav` samples in simulation mode) and sends it to a cloud
service, which classifies it (ONNX model, with an energy heuristic as
fallback) and stores chainsaw and gunshot detections as alerts in SQLite.

## Layout

- `src/` — the verified library (Verus):
  - `text` — character-level string operations (trimming Unicode whitespace,
    ASCII lowercasing, equality) with their specifications;
  - `labels` — classifier classes, display names, which events are alerts;
  - `cloud` — the service's decisions: the `SIMULATION` flag, the upload
    field, which classifications are persisted;
  - `edge` — the sentinel's decisions: its `SIMULATION` flag, which files are
    samples, the next sample to send, when enough audio was captured;
  - `buffer` — the bounded window of the most recent five seconds of audio;
  - `seed` — the example alerts of the service's simulation mode;
  - `spectrogram` — frame and mel-band layout of the classifier's features;
  - `wav` — WAVE files through `hound`: 16-bit mono encoding with its byte
    layout, decoding into format and integer samples, the integer full scale.
- `app/` — the programs around it: HTTP service (axum, sqlx, tract-onnx),
  audio capture (cpal) and upload (reqwest), and the floating-point signal
  processing. Run `curupira backend` or `curupira edge`.
- `tests/` — tests of the library.
