//! Decisions of the cloud service (the backend API): configuration flags,
//! upload handling and which classifications become persisted alerts.

use vstd::prelude::*;
use crate::labels::{display_name, event_display_name, is_critical_label};
use crate::text::{ascii_lower_seq, chars_of, chars_equal, str_eq, trim, trimmed_ascii_lowercase};

verus! {

/// The values of `SIMULATION` that turn the service's simulation mode on:
/// after trimming whitespace and lowering ASCII case, one of
/// "1", "true", "yes" or "on".
pub open spec fn accepts_simulation_value(value: Seq<char>) -> bool {
    let word = ascii_lower_seq(trim(value));
    word == "1"@ || word == "true"@ || word == "yes"@ || word == "on"@
}

/// Whether `value` (the content of `SIMULATION`) enables simulation mode.
pub fn is_simulation_value(value: &str) -> (r: bool)
    ensures
        r == accepts_simulation_value(value@),
        r <==> ({
            let w = ascii_lower_seq(trim(value@));
            w == seq!['1'] || w == seq!['t', 'r', 'u', 'e'] || w == seq!['y', 'e', 's'] || w
                == seq!['o', 'n']
        }),
{
    let word = trimmed_ascii_lowercase(value);
    let r = chars_equal(&word, &chars_of("1")) || chars_equal(&word, &chars_of("true"))
        || chars_equal(&word, &chars_of("yes")) || chars_equal(&word, &chars_of("on"));
    proof {
        law_simulation_words(value@);
    }
    r
}

/// Simulation mode is on exactly when the value, trimmed and lowered, is
/// "1", "true", "yes" or "on"; so "off", "no", "false", "0" and every other
/// word leave it off, whatever the surrounding whitespace and case.
pub proof fn law_simulation_words(value: Seq<char>)
    ensures
        accepts_simulation_value(value) <==> ({
            let w = ascii_lower_seq(trim(value));
            w == seq!['1'] || w == seq!['t', 'r', 'u', 'e'] || w == seq!['y', 'e', 's'] || w
                == seq!['o', 'n']
        }),
        ascii_lower_seq(trim(value)) == seq!['o', 'f', 'f'] ==> !accepts_simulation_value(value),
        ascii_lower_seq(trim(value)) == seq!['n', 'o'] ==> !accepts_simulation_value(value),
        ascii_lower_seq(trim(value)) == seq!['f', 'a', 'l', 's', 'e'] ==> !accepts_simulation_value(
            value,
        ),
        ascii_lower_seq(trim(value)) == seq!['0'] ==> !accepts_simulation_value(value),
        ascii_lower_seq(trim(value)).len() == 0 ==> !accepts_simulation_value(value),
{
    reveal_strlit("1");
    reveal_strlit("true");
    reveal_strlit("yes");
    reveal_strlit("on");
    assert("1"@ =~= seq!['1']);
    assert("true"@ =~= seq!['t', 'r', 'u', 'e']);
    assert("yes"@ =~= seq!['y', 'e', 's']);
    assert("on"@ =~= seq!['o', 'n']);
    let w = ascii_lower_seq(trim(value));
    if w == seq!['o', 'f', 'f'] {
        assert(w[1] != seq!['o', 'n'][1]);
    }
    if w == seq!['0'] {
        assert(w[0] != seq!['1'][0]);
    }
}

/// Display name of an event label for the service's log.
pub fn format_event_label(label: &str) -> (r: &'static str)
    ensures
        r@ == event_display_name(label@),
{
    display_name(label)
}

/// Whether a classification with this label is stored as an alert:
/// exactly chainsaw ("motosserra") and gunshot ("tiro") events are.
pub fn should_persist(label: &str) -> (r: bool)
    ensures
        r == is_critical_label(label@),
{
    str_eq(label, "motosserra") || str_eq(label, "tiro")
}

/// Whether a multipart field with this name carries the uploaded audio:
/// only a field named "file" does.
pub fn is_file_field(name: Option<&str>) -> (r: bool)
    ensures
        r == (name matches Some(n) && n@ == "file"@),
        r == (name matches Some(n) && n@ == seq!['f', 'i', 'l', 'e']),
{
    proof {
        reveal_strlit("file");
        assert("file"@ =~= seq!['f', 'i', 'l', 'e']);
    }
    match name {
        Some(n) => str_eq(n, "file"),
        None => false,
    }
}

} // verus!
