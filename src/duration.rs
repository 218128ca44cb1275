//! The countdown duration: from one amount and a unit, or from separate
//! hour, minute and second fields.

use vstd::prelude::*;

use crate::diagnostic::{Diagnostic, DiagnosticKind, NoteView, note_matches, notes_view, opt_notes, push_note};
use crate::document::{ConfigDocument, ConfigKey, ConfigValue, ValueView, lookup, opt_view, shown};
use crate::text::{lower_of, lowercase, same_text};

verus! {

/// Seconds in an hour.
pub const SECONDS_PER_HOUR: i64 = 3600;

/// Seconds in a minute.
pub const SECONDS_PER_MINUTE: i64 = 60;

/// The number of seconds that one of a unit counts, for a unit name already
/// in lower case; `None` for a name that is not recognised.
pub open spec fn unit_factor(lowered: Seq<char>) -> Option<i64> {
    if lowered == "hours"@ || lowered == "houre"@ || lowered == "hor"@ || lowered == "h"@ {
        Some(SECONDS_PER_HOUR)
    } else if lowered == "minutes"@ || lowered == "minute"@ || lowered == "min"@ || lowered
        == "m"@ {
        Some(SECONDS_PER_MINUTE)
    } else if lowered == "seconds"@ || lowered == "second"@ || lowered == "sec"@ || lowered
        == "s"@ {
        Some(1)
    } else {
        None
    }
}

/// The seconds per unit named by `lowered`, a unit name in lower case.
pub fn factor_of_lowered(lowered: &str) -> (r: Option<i64>)
    ensures
        r == unit_factor(lowered@),
{
    if same_text(lowered, "hours") || same_text(lowered, "houre") || same_text(lowered, "hor")
        || same_text(lowered, "h") {
        Some(SECONDS_PER_HOUR)
    } else if same_text(lowered, "minutes") || same_text(lowered, "minute") || same_text(
        lowered,
        "min",
    ) || same_text(lowered, "m") {
        Some(SECONDS_PER_MINUTE)
    } else if same_text(lowered, "seconds") || same_text(lowered, "second") || same_text(
        lowered,
        "sec",
    ) || same_text(lowered, "s") {
        Some(1)
    } else {
        None
    }
}

/// The seconds per unit for the value at `timer.unit`, and the diagnostic
/// that a missing or unknown unit brings: such a unit counts seconds.
pub open spec fn unit_reading(unit: Option<ValueView>) -> (i64, Option<NoteView>) {
    match unit {
        None => (1, Some((DiagnosticKind::UnitMissing, None))),
        Some(v) => match unit_factor(lower_of(shown(v))) {
            Some(f) => (f, None),
            None => (1, Some((DiagnosticKind::UnitUnknown, Some(shown(v))))),
        },
    }
}

/// The seconds per unit for the value at `timer.unit`, with the diagnostic
/// for a missing or unrecognised unit.
pub fn unit_multiplier(unit: Option<&ConfigValue>) -> (r: (i64, Option<Diagnostic>))
    ensures
        r.0 == unit_reading(opt_view(unit)).0,
        note_matches(r.1, unit_reading(opt_view(unit)).1),
        1 <= r.0 <= SECONDS_PER_HOUR,
{
    match unit {
        None => (1, Some(Diagnostic::plain(DiagnosticKind::UnitMissing))),
        Some(v) => {
            let text = v.shown_text();
            let lowered = lowercase(text.as_str());
            match factor_of_lowered(lowered.as_str()) {
                Some(f) => (f, None),
                None => (1, Some(Diagnostic::about(DiagnosticKind::UnitUnknown, text))),
            }
        },
    }
}

/// An integer field: its value when it is an integer, else zero.
pub open spec fn int_or_zero(v: Option<ValueView>) -> i32 {
    match v {
        Some(ValueView::Int(n)) => n,
        _ => 0,
    }
}

/// The diagnostic for an integer field that holds something else.
pub open spec fn int_field_note(v: Option<ValueView>, kind: DiagnosticKind) -> Option<NoteView> {
    match v {
        Some(ValueView::Int(_)) => None,
        Some(x) => Some((kind, Some(shown(x)))),
        None => None,
    }
}

/// An integer field read with zero for a missing or non-integer value, and a
/// diagnostic of `kind` for a value that is present but not an integer.
pub fn read_int_field(v: Option<&ConfigValue>, kind: DiagnosticKind) -> (r: (i32, Option<Diagnostic>))
    ensures
        r.0 == int_or_zero(opt_view(v)),
        note_matches(r.1, int_field_note(opt_view(v), kind)),
{
    match v {
        Some(ConfigValue::Int(n)) => (*n, None),
        Some(x) => (0, Some(Diagnostic::about(kind, x.shown_text()))),
        None => (0, None),
    }
}

/// Whether hours, minutes and seconds are clamped to just under a day.
pub open spec fn needs_clamp(h: i32, m: i32, s: i32) -> bool {
    h == 24 || (h == 23 && s > 59 && m > 59)
}

/// Hours, minutes and seconds with a full day (or more, at 23 hours)
/// brought down to 23:59:59, so that a countdown never ends exactly one
/// day from now.
pub open spec fn clamped(h: i32, m: i32, s: i32) -> (i32, i32, i32) {
    if needs_clamp(h, m, s) {
        (23, 59, 59)
    } else {
        (h, m, s)
    }
}

/// Clamps hours, minutes and seconds as [`clamped`] says.
pub fn clamp_hms(h: i32, m: i32, s: i32) -> (r: (i32, i32, i32))
    ensures
        r == clamped(h, m, s),
{
    if h == 24 || (h == 23 && s > 59 && m > 59) {
        (23, 59, 59)
    } else {
        (h, m, s)
    }
}

/// The number of seconds in `h` hours, `m` minutes and `s` seconds.
pub open spec fn hms_seconds(h: i32, m: i32, s: i32) -> int {
    h * 3600 + m * 60 + s
}

/// The number of seconds in `h` hours, `m` minutes and `s` seconds.
pub fn total_seconds(h: i32, m: i32, s: i32) -> (r: i64)
    ensures
        r == hms_seconds(h, m, s),
{
    h as i64 * SECONDS_PER_HOUR + m as i64 * SECONDS_PER_MINUTE + s as i64
}

} // verus!

verus! {

/// The amount at `timer.duration`, with zero and a diagnostic when it is
/// missing or not an integer.
pub open spec fn amount_reading(v: Option<ValueView>) -> (i32, Option<NoteView>) {
    match v {
        None => (0, Some((DiagnosticKind::AmountMissing, None))),
        Some(ValueView::Int(n)) => (n, None),
        Some(x) => (0, Some((DiagnosticKind::AmountNotNumber, Some(shown(x))))),
    }
}

/// Whether a document gives its countdown as one amount and a unit: it has
/// `timer.duration` or `timer.unit`, and none of the separate fields.
pub open spec fn uses_amount_and_unit(doc: Map<ConfigKey, ValueView>) -> bool {
    !doc.contains_key(ConfigKey::DurationHours) && !doc.contains_key(ConfigKey::DurationMinutes)
        && !doc.contains_key(ConfigKey::DurationSeconds) && (doc.contains_key(
        ConfigKey::DurationAmount,
    ) || doc.contains_key(ConfigKey::DurationUnit))
}

/// The hours, minutes and seconds fields of a document, zero where missing
/// or not an integer, clamped.
pub open spec fn document_hms(doc: Map<ConfigKey, ValueView>) -> (i32, i32, i32) {
    clamped(
        int_or_zero(lookup(doc, ConfigKey::DurationHours)),
        int_or_zero(lookup(doc, ConfigKey::DurationMinutes)),
        int_or_zero(lookup(doc, ConfigKey::DurationSeconds)),
    )
}

/// The length of the countdown that a document configures, in seconds.
pub open spec fn countdown_seconds(doc: Map<ConfigKey, ValueView>) -> int {
    if uses_amount_and_unit(doc) {
        amount_reading(lookup(doc, ConfigKey::DurationAmount)).0 * unit_reading(
            lookup(doc, ConfigKey::DurationUnit),
        ).0
    } else {
        let (h, m, s) = document_hms(doc);
        hms_seconds(h, m, s)
    }
}

/// The diagnostics of reading the countdown of a document.
pub open spec fn countdown_notes(doc: Map<ConfigKey, ValueView>) -> Seq<NoteView> {
    if uses_amount_and_unit(doc) {
        opt_notes(amount_reading(lookup(doc, ConfigKey::DurationAmount)).1) + opt_notes(
            unit_reading(lookup(doc, ConfigKey::DurationUnit)).1,
        )
    } else {
        opt_notes(int_field_note(lookup(doc, ConfigKey::DurationHours), DiagnosticKind::HoursNotNumber))
            + opt_notes(
            int_field_note(lookup(doc, ConfigKey::DurationMinutes), DiagnosticKind::MinutesNotNumber),
        ) + opt_notes(
            int_field_note(lookup(doc, ConfigKey::DurationSeconds), DiagnosticKind::SecondsNotNumber),
        )
    }
}

/// The largest number of seconds a countdown can last, either way.
pub open spec fn countdown_bound() -> int {
    0x1000_0000_0000
}

/// The length of the countdown that a document configures, in seconds, and
/// the diagnostics of reading it.
pub fn countdown_duration(doc: &ConfigDocument) -> (r: (i64, Vec<Diagnostic>))
    ensures
        r.0 == countdown_seconds(doc@),
        notes_view(r.1@) == countdown_notes(doc@),
        -countdown_bound() <= r.0 <= countdown_bound(),
{
    let mut notes: Vec<Diagnostic> = Vec::new();
    let amount_or_unit = doc.get(ConfigKey::DurationAmount).is_some() || doc.get(
        ConfigKey::DurationUnit,
    ).is_some();
    let separate = doc.get(ConfigKey::DurationHours).is_some() || doc.get(
        ConfigKey::DurationMinutes,
    ).is_some() || doc.get(ConfigKey::DurationSeconds).is_some();
    if amount_or_unit && !separate {
        let (amount, amount_note): (i32, Option<Diagnostic>) = match doc.get(
            ConfigKey::DurationAmount,
        ) {
            None => (0, Some(Diagnostic::plain(DiagnosticKind::AmountMissing))),
            Some(ConfigValue::Int(n)) => (*n, None),
            Some(x) => (0, Some(Diagnostic::about(DiagnosticKind::AmountNotNumber, x.shown_text()))),
        };
        assert(note_matches(amount_note, amount_reading(lookup(doc@, ConfigKey::DurationAmount)).1));
        push_note(&mut notes, amount_note);
        let (factor, unit_note) = unit_multiplier(doc.get(ConfigKey::DurationUnit));
        assert(note_matches(unit_note, unit_reading(lookup(doc@, ConfigKey::DurationUnit)).1));
        push_note(&mut notes, unit_note);
        assert(notes_view(notes@) =~= countdown_notes(doc@));
        assert(-0x8000_0000 * 3600 <= amount * factor <= 0x8000_0000 * 3600) by (nonlinear_arith)
            requires
                i32::MIN <= amount <= i32::MAX,
                1 <= factor <= 3600,
        ;
        (amount as i64 * factor, notes)
    } else {
        let (h, h_note) = read_int_field(doc.get(ConfigKey::DurationHours), DiagnosticKind::HoursNotNumber);
        push_note(&mut notes, h_note);
        let (m, m_note) = read_int_field(doc.get(ConfigKey::DurationMinutes), DiagnosticKind::MinutesNotNumber);
        push_note(&mut notes, m_note);
        let (s, s_note) = read_int_field(doc.get(ConfigKey::DurationSeconds), DiagnosticKind::SecondsNotNumber);
        push_note(&mut notes, s_note);
        assert(notes_view(notes@) =~= countdown_notes(doc@));
        let (h, m, s) = clamp_hms(h, m, s);
        (total_seconds(h, m, s), notes)
    }
}

} // verus!
