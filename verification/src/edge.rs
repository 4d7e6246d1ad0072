//! Decisions of the edge sentinel: its configuration flag, the choice of
//! sample files and of the next sample to send.

use vstd::prelude::*;
use rand::seq::SliceRandom;
use crate::labels::{display_name, event_display_name};
use crate::text::{ascii_lower_seq, chars_of, str_eq, to_ascii_lower};

verus! {

/// The values of `SIMULATION` that turn the sentinel's simulation mode on:
/// exactly "1", "true", "TRUE", "yes" or "YES".
pub open spec fn accepts_simulation_value(value: Seq<char>) -> bool {
    value == "1"@ || value == "true"@ || value == "TRUE"@ || value == "yes"@ || value == "YES"@
}

/// Whether `value` (the content of `SIMULATION`) enables simulation mode.
pub fn is_simulation_value(value: &str) -> (r: bool)
    ensures
        r == accepts_simulation_value(value@),
        r <==> (value@ == seq!['1'] || value@ == seq!['t', 'r', 'u', 'e'] || value@ == seq![
            'T',
            'R',
            'U',
            'E',
        ] || value@ == seq!['y', 'e', 's'] || value@ == seq!['Y', 'E', 'S']),
{
    let r = str_eq(value, "1") || str_eq(value, "true") || str_eq(value, "TRUE") || str_eq(
        value,
        "yes",
    ) || str_eq(value, "YES");
    proof {
        law_edge_simulation_words(value@);
    }
    r
}

/// The sentinel's simulation mode is on for exactly five spellings, with no
/// trimming and no other case: "1", "true", "TRUE", "yes", "YES".
pub proof fn law_edge_simulation_words(value: Seq<char>)
    ensures
        accepts_simulation_value(value) <==> (value == seq!['1'] || value == seq!['t', 'r', 'u', 'e']
            || value == seq!['T', 'R', 'U', 'E'] || value == seq!['y', 'e', 's'] || value == seq![
            'Y',
            'E',
            'S',
        ]),
{
    reveal_strlit("1");
    reveal_strlit("true");
    reveal_strlit("TRUE");
    reveal_strlit("yes");
    reveal_strlit("YES");
    assert("1"@ =~= seq!['1']);
    assert("true"@ =~= seq!['t', 'r', 'u', 'e']);
    assert("TRUE"@ =~= seq!['T', 'R', 'U', 'E']);
    assert("yes"@ =~= seq!['y', 'e', 's']);
    assert("YES"@ =~= seq!['Y', 'E', 'S']);
}

/// Display name of an event label for the sentinel's log.
pub fn format_event_label(label: &str) -> (r: &'static str)
    ensures
        r@ == event_display_name(label@),
{
    display_name(label)
}

/// Index of the last '.' in `s`, or -1 when there is none.
pub open spec fn last_dot(s: Seq<char>) -> int
    decreases s.len(),
{
    if s.len() == 0 {
        -1
    } else if s.last() == '.' {
        s.len() - 1
    } else {
        last_dot(s.drop_last())
    }
}

/// What `Path::extension` gives for a path whose file name is `name`: the
/// part after the last '.', unless there is no '.', the only '.' starts the
/// name, or the name is "..".
pub open spec fn file_extension(name: Seq<char>) -> Option<Seq<char>> {
    if name == seq!['.', '.'] || last_dot(name) <= 0 {
        None
    } else {
        Some(name.subrange(last_dot(name) + 1, name.len() as int))
    }
}

/// What `str::eq_ignore_ascii_case` decides.
pub open spec fn eq_ignore_ascii_case(a: Seq<char>, b: Seq<char>) -> bool {
    ascii_lower_seq(a) == ascii_lower_seq(b)
}

/// Whether a file with this name is an audio sample: its extension is
/// "wav" in any ASCII case.
pub open spec fn is_wav_name(name: Seq<char>) -> bool {
    file_extension(name) matches Some(ext) && eq_ignore_ascii_case(ext, seq!['w', 'a', 'v'])
}

proof fn lemma_last_dot(s: Seq<char>, k: int)
    requires
        -1 <= k < s.len(),
        k >= 0 ==> s[k] == '.',
        forall|j: int| k < j < s.len() ==> #[trigger] s[j] != '.',
    ensures
        last_dot(s) == k,
    decreases s.len(),
{
    if s.len() > 0 && s.last() != '.' {
        let t = s.drop_last();
        assert forall|j: int| k < j < t.len() implies #[trigger] t[j] != '.' by {
            assert(t[j] == s[j]);
        }
        lemma_last_dot(t, k);
    }
}

/// Whether the directory entry named `name` is a sample file to send.
pub fn is_wav_file_name(name: &str) -> (r: bool)
    ensures
        r == is_wav_name(name@),
{
    let chars = chars_of(name);
    let n = chars.len();
    let mut i: usize = n;
    while i > 0 && chars[i - 1] != '.'
        invariant
            i <= n,
            n == chars@.len(),
            forall|j: int| i <= j < n ==> #[trigger] chars@[j] != '.',
        decreases i,
    {
        i = i - 1;
    }
    proof {
        lemma_last_dot(chars@, i - 1);
    }
    if i <= 1 || n - i != 3 {
        proof {
            if i > 1 && chars@ != seq!['.', '.'] {
                let ext = chars@.subrange(i as int, n as int);
                assert(ascii_lower_seq(ext).len() != ascii_lower_seq(seq!['w', 'a', 'v']).len());
            }
        }
        return false;
    }
    let a = to_ascii_lower(chars[i]);
    let b = to_ascii_lower(chars[i + 1]);
    let c = to_ascii_lower(chars[i + 2]);
    let r = a == 'w' && b == 'a' && c == 'v';
    proof {
        let ext = chars@.subrange(i as int, n as int);
        let wav = seq!['w', 'a', 'v'];
        assert(chars@ != seq!['.', '.']) by {
            if chars@ == seq!['.', '.'] {
                assert(chars@.len() == 2);
            }
        }
        assert(ascii_lower_seq(wav) =~= wav);
        if r {
            assert(ascii_lower_seq(ext) =~= wav);
        } else {
            assert(ascii_lower_seq(ext)[0] != wav[0] || ascii_lower_seq(ext)[1] != wav[1]
                || ascii_lower_seq(ext)[2] != wav[2]);
        }
    }
    r
}

/// A file is a sample exactly when its name has at least one character, a
/// '.', and then three characters that lowercase to "wav", in that order at
/// its end.
pub proof fn law_wav_names(name: Seq<char>)
    ensures
        is_wav_name(name) <==> (name.len() >= 5 && name[name.len() - 4] == '.' && (name[name.len()
            - 3] == 'w' || name[name.len() - 3] == 'W') && (name[name.len() - 2] == 'a'
            || name[name.len() - 2] == 'A') && (name[name.len() - 1] == 'v' || name[name.len() - 1]
            == 'V')),
{
    let n = name.len() as int;
    let wav = seq!['w', 'a', 'v'];
    assert(ascii_lower_seq(wav) =~= wav);
    if n >= 5 && name[n - 4] == '.' && (name[n - 3] == 'w' || name[n - 3] == 'W') && (name[n - 2]
        == 'a' || name[n - 2] == 'A') && (name[n - 1] == 'v' || name[n - 1] == 'V') {
        assert forall|j: int| n - 4 < j < n implies #[trigger] name[j] != '.' by {}
        lemma_last_dot(name, n - 4);
        let ext = name.subrange(n - 3, n);
        assert(ascii_lower_seq(ext) =~= wav);
        assert(name != seq!['.', '.']) by {
            if name == seq!['.', '.'] {
                assert(name.len() == 2);
            }
        }
    }
    if is_wav_name(name) {
        let k = last_dot(name);
        lemma_last_dot_is_dot(name);
        let ext = name.subrange(k + 1, n);
        assert(ascii_lower_seq(ext).len() == 3);
        assert(ext.len() == 3);
        assert(ascii_lower_seq(ext)[0] == 'w' && ascii_lower_seq(ext)[1] == 'a' && ascii_lower_seq(ext)[2] == 'v');
        assert(ext[0] == name[n - 3] && ext[1] == name[n - 2] && ext[2] == name[n - 1]);
    }
}

proof fn lemma_last_dot_is_dot(s: Seq<char>)
    ensures
        -1 <= last_dot(s) < s.len(),
        last_dot(s) >= 0 ==> s[last_dot(s)] == '.',
    decreases s.len(),
{
    if s.len() > 0 && s.last() != '.' {
        lemma_last_dot_is_dot(s.drop_last());
    }
}

/// Why no sample can be sent.
#[derive(Debug, PartialEq, Eq)]
pub enum SimulationError {
    /// The samples directory holds no `.wav` file.
    NoSamples,
}

/// `SliceRandom::choose` of `rand` with the thread-local generator: `None`
/// for an empty slice, otherwise one of its elements picked at random. The
/// contract claims only that, of every outcome; which element comes back is
/// left unsaid.
#[verifier::external_body]
fn choose_random<T>(items: &[T]) -> (r: Option<&T>)
    ensures
        r is None <==> items@.len() == 0,
        r matches Some(x) ==> items@.contains(*x),
{
    items.choose(&mut rand::thread_rng())
}

/// The sample file to send next in simulation mode: one of `paths`, picked
/// at random, or `NoSamples` when there is none.
pub fn next_sample<T>(paths: &[T]) -> (r: Result<&T, SimulationError>)
    ensures
        r is Err <==> paths@.len() == 0,
        r matches Err(e) ==> e == SimulationError::NoSamples,
        r matches Ok(p) ==> paths@.contains(*p),
{
    match choose_random(paths) {
        Some(p) => Ok(p),
        None => Err(SimulationError::NoSamples),
    }
}

/// Whether a captured window holds enough audio to send: at least one
/// second, that is `sample_rate` samples.
pub fn has_enough_audio(window_len: usize, sample_rate: u32) -> (r: bool)
    ensures
        r == (window_len >= sample_rate),
{
    window_len >= sample_rate as usize
}


proof fn lemma_word_is_plain(w: Seq<char>)
    requires
        forall|i: int| 0 <= i < w.len() ==> !crate::text::is_unicode_whitespace(#[trigger] w[i]),
        w.len() > 0,
    ensures
        crate::text::trim(w) == w,
{
    reveal_with_fuel(crate::text::trim_start, 2);
    reveal_with_fuel(crate::text::trim_end, 2);
}

/// A `SIMULATION` value that turns the sentinel's simulation mode on also
/// turns the cloud service's on.
pub proof fn law_edge_simulation_values_enable_cloud(value: Seq<char>)
    requires
        accepts_simulation_value(value),
    ensures
        crate::cloud::accepts_simulation_value(value),
{
    reveal_strlit("1");
    reveal_strlit("true");
    reveal_strlit("TRUE");
    reveal_strlit("yes");
    reveal_strlit("YES");
    assert forall|i: int| 0 <= i < value.len() implies !crate::text::is_unicode_whitespace(
        #[trigger] value[i],
    ) by {}
    lemma_word_is_plain(value);
    let lowered = ascii_lower_seq(value);
    if value == "TRUE"@ {
        assert(lowered =~= "true"@);
    } else if value == "YES"@ {
        assert(lowered =~= "yes"@);
    } else if value == "true"@ {
        assert(lowered =~= "true"@);
    } else if value == "yes"@ {
        assert(lowered =~= "yes"@);
    } else {
        assert(lowered =~= "1"@);
    }
}

} // verus!
