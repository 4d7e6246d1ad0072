//! Event labels produced by the classifier and their display names.

use vstd::prelude::*;
use crate::text::str_eq;

verus! {

/// The display name of an event label, as the cloud and edge logs show it.
pub open spec fn event_display_name(label: Seq<char>) -> Seq<char> {
    if label == "motosserra"@ {
        "Motosserra"@
    } else if label == "tiro"@ {
        "Tiro"@
    } else if label == "chuva"@ {
        "Chuva"@
    } else if label == "ambiente"@ {
        "Som ambiente"@
    } else {
        "Som desconhecido"@
    }
}

/// Whether an event of this label is an alert worth persisting.
pub open spec fn is_critical_label(label: Seq<char>) -> bool {
    label == "motosserra"@ || label == "tiro"@
}

/// Maps an event label to its display name; unknown labels map to
/// "Som desconhecido".
pub fn display_name(label: &str) -> (r: &'static str)
    ensures
        r@ == event_display_name(label@),
{
    if str_eq(label, "motosserra") {
        "Motosserra"
    } else if str_eq(label, "tiro") {
        "Tiro"
    } else if str_eq(label, "chuva") {
        "Chuva"
    } else if str_eq(label, "ambiente") {
        "Som ambiente"
    } else {
        "Som desconhecido"
    }
}


/// The classes of the classifier, in the order of its output scores.
pub open spec fn model_labels() -> Seq<Seq<char>> {
    seq!["ambiente"@, "chuva"@, "motosserra"@, "tiro"@]
}

/// The label of output score `idx`: its class, or "desconhecido" past the
/// known classes.
pub open spec fn label_of_index(idx: int) -> Seq<char> {
    if 0 <= idx < model_labels().len() {
        model_labels()[idx]
    } else {
        "desconhecido"@
    }
}

/// The label of the classifier's output score at position `idx`.
pub fn label_for_index(idx: usize) -> (r: &'static str)
    ensures
        r@ == label_of_index(idx as int),
{
    match idx {
        0 => "ambiente",
        1 => "chuva",
        2 => "motosserra",
        3 => "tiro",
        _ => "desconhecido",
    }
}

/// Every class of the classifier has a display name of its own, and of them
/// exactly chainsaw and gunshot are alerts; an index past the classes is
/// shown as unknown and never stored.
pub proof fn law_model_classes_are_named(idx: int)
    ensures
        0 <= idx < 4 ==> event_display_name(label_of_index(idx)) != "Som desconhecido"@,
        is_critical_label(label_of_index(idx)) <==> (idx == 2 || idx == 3),
        !(0 <= idx < 4) ==> event_display_name(label_of_index(idx)) == "Som desconhecido"@,
{
    reveal_strlit("ambiente");
    reveal_strlit("chuva");
    reveal_strlit("motosserra");
    reveal_strlit("tiro");
    reveal_strlit("desconhecido");
    reveal_strlit("Som ambiente");
    reveal_strlit("Chuva");
    reveal_strlit("Motosserra");
    reveal_strlit("Tiro");
    reveal_strlit("Som desconhecido");
    let l = label_of_index(idx);
    if idx == 0 {
        assert(l == "ambiente"@);
        assert(l.len() != "motosserra"@.len() && l.len() != "tiro"@.len());
        assert(l[0] != "chuva"@[0]);
        assert(event_display_name(l) == "Som ambiente"@);
        assert("Som ambiente"@[0] != "Som desconhecido"@[4]);
        assert("Som ambiente"@[4] != "Som desconhecido"@[4]);
    } else if idx == 1 {
        assert(l == "chuva"@);
        assert(l.len() != "motosserra"@.len() && l.len() != "tiro"@.len());
        assert(event_display_name(l) == "Chuva"@);
        assert("Chuva"@.len() != "Som desconhecido"@.len());
    } else if idx == 2 {
        assert(l == "motosserra"@);
        assert(event_display_name(l) == "Motosserra"@);
        assert("Motosserra"@.len() != "Som desconhecido"@.len());
    } else if idx == 3 {
        assert(l == "tiro"@);
        assert(l.len() != "motosserra"@.len());
        assert(event_display_name(l) == "Tiro"@);
        assert("Tiro"@.len() != "Som desconhecido"@.len());
    } else {
        assert(l == "desconhecido"@);
        assert(l.len() != "motosserra"@.len() && l.len() != "tiro"@.len());
        assert(l.len() != "chuva"@.len() && l.len() != "ambiente"@.len());
    }
}

/// The alerts that are stored are exactly the events shown as "Motosserra"
/// or "Tiro".
pub proof fn law_critical_labels_are_alert_names(label: Seq<char>)
    ensures
        is_critical_label(label) <==> (event_display_name(label) == "Motosserra"@
            || event_display_name(label) == "Tiro"@),
{
    reveal_strlit("Motosserra");
    reveal_strlit("Tiro");
    reveal_strlit("Chuva");
    reveal_strlit("Som ambiente");
    reveal_strlit("Som desconhecido");
    assert("Motosserra"@.len() != "Tiro"@.len());
    assert("Chuva"@.len() != "Tiro"@.len() && "Chuva"@.len() != "Motosserra"@.len());
    assert("Som ambiente"@.len() != "Tiro"@.len() && "Som ambiente"@.len() != "Motosserra"@.len());
    assert("Som desconhecido"@.len() != "Tiro"@.len() && "Som desconhecido"@.len() != "Motosserra"@.len());
}

/// Exactly two labels are alerts, "motosserra" (chainsaw) and "tiro"
/// (gunshot); and the classifier's scores are, in order, "ambiente",
/// "chuva", "motosserra" and "tiro", any further position being
/// "desconhecido".
pub proof fn law_alert_labels_and_score_order(label: Seq<char>, idx: int)
    ensures
        is_critical_label(label) <==> (label == seq!['m', 'o', 't', 'o', 's', 's', 'e', 'r', 'r', 'a']
            || label == seq!['t', 'i', 'r', 'o']),
        idx == 0 ==> label_of_index(idx) == seq!['a', 'm', 'b', 'i', 'e', 'n', 't', 'e'],
        idx == 1 ==> label_of_index(idx) == seq!['c', 'h', 'u', 'v', 'a'],
        idx == 2 ==> label_of_index(idx) == seq!['m', 'o', 't', 'o', 's', 's', 'e', 'r', 'r', 'a'],
        idx == 3 ==> label_of_index(idx) == seq!['t', 'i', 'r', 'o'],
        (idx < 0 || idx > 3) ==> label_of_index(idx) == seq![
            'd',
            'e',
            's',
            'c',
            'o',
            'n',
            'h',
            'e',
            'c',
            'i',
            'd',
            'o',
        ],
{
    reveal_strlit("ambiente");
    reveal_strlit("chuva");
    reveal_strlit("motosserra");
    reveal_strlit("tiro");
    reveal_strlit("desconhecido");
    assert("ambiente"@ =~= seq!['a', 'm', 'b', 'i', 'e', 'n', 't', 'e']);
    assert("chuva"@ =~= seq!['c', 'h', 'u', 'v', 'a']);
    assert("motosserra"@ =~= seq!['m', 'o', 't', 'o', 's', 's', 'e', 'r', 'r', 'a']);
    assert("tiro"@ =~= seq!['t', 'i', 'r', 'o']);
    assert("desconhecido"@ =~= seq!['d', 'e', 's', 'c', 'o', 'n', 'h', 'e', 'c', 'i', 'd', 'o']);
}

/// Each known label is shown under its own name: "motosserra" as
/// "Motosserra", "tiro" as "Tiro", "chuva" as "Chuva", "ambiente" as
/// "Som ambiente"; every other label as "Som desconhecido".
pub proof fn law_display_names(label: Seq<char>)
    ensures
        label == seq!['m', 'o', 't', 'o', 's', 's', 'e', 'r', 'r', 'a'] ==> event_display_name(label)
            == seq!['M', 'o', 't', 'o', 's', 's', 'e', 'r', 'r', 'a'],
        label == seq!['t', 'i', 'r', 'o'] ==> event_display_name(label) == seq!['T', 'i', 'r', 'o'],
        label == seq!['c', 'h', 'u', 'v', 'a'] ==> event_display_name(label) == seq![
            'C',
            'h',
            'u',
            'v',
            'a',
        ],
        label == seq!['a', 'm', 'b', 'i', 'e', 'n', 't', 'e'] ==> event_display_name(label) == seq![
            'S',
            'o',
            'm',
            ' ',
            'a',
            'm',
            'b',
            'i',
            'e',
            'n',
            't',
            'e',
        ],
        label != seq!['m', 'o', 't', 'o', 's', 's', 'e', 'r', 'r', 'a'] && label != seq![
            't',
            'i',
            'r',
            'o',
        ] && label != seq!['c', 'h', 'u', 'v', 'a'] && label != seq![
            'a',
            'm',
            'b',
            'i',
            'e',
            'n',
            't',
            'e',
        ] ==> event_display_name(label) == seq![
            'S',
            'o',
            'm',
            ' ',
            'd',
            'e',
            's',
            'c',
            'o',
            'n',
            'h',
            'e',
            'c',
            'i',
            'd',
            'o',
        ],
{
    reveal_strlit("ambiente");
    reveal_strlit("chuva");
    reveal_strlit("motosserra");
    reveal_strlit("tiro");
    reveal_strlit("Som ambiente");
    reveal_strlit("Chuva");
    reveal_strlit("Motosserra");
    reveal_strlit("Tiro");
    reveal_strlit("Som desconhecido");
    assert("ambiente"@ =~= seq!['a', 'm', 'b', 'i', 'e', 'n', 't', 'e']);
    assert("chuva"@ =~= seq!['c', 'h', 'u', 'v', 'a']);
    assert("motosserra"@ =~= seq!['m', 'o', 't', 'o', 's', 's', 'e', 'r', 'r', 'a']);
    assert("tiro"@ =~= seq!['t', 'i', 'r', 'o']);
    assert("Som ambiente"@ =~= seq!['S', 'o', 'm', ' ', 'a', 'm', 'b', 'i', 'e', 'n', 't', 'e']);
    assert("Chuva"@ =~= seq!['C', 'h', 'u', 'v', 'a']);
    assert("Motosserra"@ =~= seq!['M', 'o', 't', 'o', 's', 's', 'e', 'r', 'r', 'a']);
    assert("Tiro"@ =~= seq!['T', 'i', 'r', 'o']);
    assert("Som desconhecido"@ =~= seq![
        'S',
        'o',
        'm',
        ' ',
        'd',
        'e',
        's',
        'c',
        'o',
        'n',
        'h',
        'e',
        'c',
        'i',
        'd',
        'o',
    ]);
}

} // verus!
