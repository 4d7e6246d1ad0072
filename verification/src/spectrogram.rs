//! The integer layout of the mel spectrogram that the classifier reads:
//! which samples each analysis frame covers and which FFT bins each mel band
//! gathers. The floating-point energies are computed over this layout.

use vstd::prelude::*;
use vstd::arithmetic::div_mod::{
    lemma_div_is_ordered, lemma_div_multiples_vanish, lemma_div_plus_one,
};

verus! {

/// Samples per analysis frame.
pub const WINDOW_SIZE: usize = 1024;

/// Samples between the starts of consecutive frames.
pub const HOP_SIZE: usize = 512;

/// FFT bins of one frame: half the window.
pub const FFT_BINS: usize = 512;

/// First sample of frame `frame_idx`.
pub open spec fn frame_start(frame_idx: int) -> int {
    frame_idx * HOP_SIZE
}

/// One past the last sample of frame `frame_idx` in a signal of `len` samples.
pub open spec fn frame_end(frame_idx: int, len: int) -> int {
    if frame_start(frame_idx) + WINDOW_SIZE <= len {
        frame_start(frame_idx) + WINDOW_SIZE
    } else {
        len
    }
}

/// Whether every one of `frames` frames starts inside a signal of `len`
/// samples (or the signal is empty, in which case no frame is read).
pub open spec fn frames_fit(len: int, frames: int) -> bool {
    len == 0 || frames == 0 || frame_start(frames - 1) <= len
}

/// First FFT bin of mel band `mel_idx` out of `mel_bins`.
pub open spec fn band_start(mel_idx: int, mel_bins: int) -> int {
    mel_idx * FFT_BINS / mel_bins
}

/// One past the last FFT bin of mel band `mel_idx` out of `mel_bins`: the
/// next band's start, but at least one bin past this band's start.
pub open spec fn band_end(mel_idx: int, mel_bins: int) -> int {
    let next = (mel_idx + 1) * FFT_BINS / mel_bins;
    if next >= band_start(mel_idx, mel_bins) + 1 {
        next
    } else {
        band_start(mel_idx, mel_bins) + 1
    }
}

/// Whether the spectrogram of a signal of `samples_len` samples can read all
/// of its `frames` frames; when it cannot, the frame at `frame_start` past
/// the end cannot be sliced.
pub fn frames_fit_signal(samples_len: usize, frames: usize) -> (r: bool)
    ensures
        r == frames_fit(samples_len as int, frames as int),
        samples_len > 0 && frames > 0 ==> (r <==> (frames - 1) * 512 <= samples_len),
{
    if samples_len == 0 || frames == 0 {
        return true;
    }
    let last = frames - 1;
    if last > samples_len / HOP_SIZE {
        assert(last * HOP_SIZE > samples_len) by (nonlinear_arith)
            requires last > samples_len / 512, last >= 0, samples_len >= 0;
        false
    } else {
        assert(last * HOP_SIZE <= samples_len) by (nonlinear_arith)
            requires last <= samples_len / 512, last >= 0, samples_len >= 0;
        true
    }
}

/// The samples `[start, end)` that frame `frame_idx` covers.
pub fn frame_window(frame_idx: usize, samples_len: usize) -> (r: (usize, usize))
    requires
        frame_start(frame_idx as int) <= samples_len,
        frame_start(frame_idx as int) + WINDOW_SIZE <= usize::MAX,
    ensures
        r.0 == frame_start(frame_idx as int),
        r.1 == frame_end(frame_idx as int, samples_len as int),
        r.0 <= r.1 <= samples_len,
        r.0 == frame_idx * 512,
        r.0 + 1024 <= samples_len ==> r.1 == r.0 + 1024,
        r.0 + 1024 > samples_len ==> r.1 == samples_len,
{
    let start = frame_idx * HOP_SIZE;
    let end = if start + WINDOW_SIZE <= samples_len {
        start + WINDOW_SIZE
    } else {
        samples_len
    };
    (start, end)
}

/// The FFT bins `[start, end)` that mel band `mel_idx` out of `mel_bins`
/// gathers.
pub fn mel_band(mel_idx: usize, mel_bins: usize) -> (r: (usize, usize))
    requires
        mel_idx < mel_bins,
        (mel_idx + 1) * FFT_BINS <= usize::MAX,
    ensures
        r.0 == band_start(mel_idx as int, mel_bins as int),
        r.1 == band_end(mel_idx as int, mel_bins as int),
        r.0 == (mel_idx * 512) as int / mel_bins as int,
        r.1 == (if ((mel_idx + 1) * 512) as int / mel_bins as int > r.0 {
            ((mel_idx + 1) * 512) as int / mel_bins as int
        } else {
            r.0 + 1
        }),
{
    let bin_start = mel_idx * FFT_BINS / mel_bins;
    assert(bin_start <= FFT_BINS) by {
        lemma_div_is_ordered(mel_idx * 512, mel_bins * 512, mel_bins as int);
        lemma_div_multiples_vanish(512, mel_bins as int);
    }
    let next = (mel_idx + 1) * FFT_BINS / mel_bins;
    let bin_end = if next >= bin_start + 1 {
        next
    } else {
        bin_start + 1
    };
    (bin_start, bin_end)
}

/// With at most as many mel bands as FFT bins, the bands split the FFT bins
/// into consecutive, non-empty, non-overlapping ranges that cover all of
/// them.
pub proof fn law_mel_bands_partition_fft_bins(mel_bins: int)
    requires
        0 < mel_bins <= FFT_BINS,
    ensures
        band_start(0, mel_bins) == 0,
        band_end(mel_bins - 1, mel_bins) == FFT_BINS,
        forall|i: int|
            0 <= i < mel_bins ==> #[trigger] band_start(i, mel_bins) < band_end(i, mel_bins),
        forall|i: int|
            0 <= i < mel_bins - 1 ==> #[trigger] band_end(i, mel_bins) == band_start(i + 1, mel_bins),
{
    assert forall|i: int| 0 <= i < mel_bins implies (i + 1) * 512 / mel_bins >= #[trigger] band_start(
        i,
        mel_bins,
    ) + 1 by {
        lemma_div_plus_one(i * 512, mel_bins);
        lemma_div_is_ordered(mel_bins + i * 512, (i + 1) * 512, mel_bins);
        assert((i + 1) * 512 == i * 512 + 512) by (nonlinear_arith);
    }
    assert(band_start(0, mel_bins) == 0);
    lemma_div_multiples_vanish(512, mel_bins);
    assert(mel_bins * 512 == 512 * mel_bins) by (nonlinear_arith);
    assert(band_end(mel_bins - 1, mel_bins) == FFT_BINS) by {
        assert((mel_bins - 1 + 1) * 512 / mel_bins >= band_start(mel_bins - 1, mel_bins) + 1);
    }
}

/// The frames of a signal lie inside it, start `HOP_SIZE` apart and overlap
/// their neighbours by `WINDOW_SIZE - HOP_SIZE` samples while the signal lasts.
pub proof fn law_frames_tile_the_signal(len: int, frame_idx: int)
    requires
        0 <= frame_idx,
        frame_start(frame_idx) <= len,
    ensures
        frame_start(frame_idx) <= frame_end(frame_idx, len) <= len,
        frame_start(frame_idx + 1) == frame_start(frame_idx) + HOP_SIZE,
        frame_end(frame_idx, len) - frame_start(frame_idx) <= WINDOW_SIZE,
        frame_start(frame_idx + 1) <= len ==> frame_end(frame_idx, len) >= frame_start(frame_idx + 1),
{
    assert((frame_idx + 1) * 512 == frame_idx * 512 + 512) by (nonlinear_arith);
}

/// The clip can be analysed exactly when the last of the frames starts at or
/// before its end (frames are 512 samples apart); how far the clip reaches
/// past that start does not matter, so a longer clip fits at least as many
/// frames as a shorter one.
pub proof fn law_frames_fit_when_last_frame_starts_inside(len: int, frames: int, longer: int)
    requires
        len > 0,
        frames > 0,
        longer >= len,
    ensures
        frames_fit(len, frames) <==> (frames - 1) * 512 <= len,
        frames_fit(len, frames) ==> frames_fit(longer, frames),
        frames_fit(len, frames) ==> forall|f: int| 0 < f <= frames ==> #[trigger] frames_fit(len, f),
{
    assert forall|f: int| 0 < f <= frames && (frames - 1) * 512 <= len implies #[trigger] frames_fit(
        len,
        f,
    ) by {
        assert((f - 1) * 512 <= (frames - 1) * 512) by (nonlinear_arith)
            requires f <= frames;
    }
}

/// Frame `i` starts at `512 * i` and spans the whole 1024-sample window
/// whenever the clip reaches that far; only a frame running past the end
/// of the clip is cut, at the end of the clip.
pub proof fn law_frames_span_full_windows(i: int, len: int)
    requires
        0 <= i,
        0 <= len,
    ensures
        frame_start(i) == 512 * i,
        frame_start(i) + 1024 <= len ==> frame_end(i, len) - frame_start(i) == 1024,
        frame_start(i) + 1024 > len ==> frame_end(i, len) == len,
        frame_end(i, len) <= frame_start(i) + 1024,
{
}

/// Mel band `i` of `m` starts at FFT bin `512 * i / m`, rounded down, and
/// ends where band `i + 1` starts, or one bin after its own start when that
/// is later.
pub proof fn law_mel_band_bounds(i: int, m: int)
    requires
        0 <= i < m,
    ensures
        band_start(i, m) == i * 512 / m,
        band_end(i, m) == (if (i + 1) * 512 / m > i * 512 / m { (i + 1) * 512 / m } else { i * 512 / m + 1 }),
        band_end(i, m) >= band_start(i, m) + 1,
{
}

} // verus!
