//! Laws of the derivation, proved over its specification.

use vstd::prelude::*;

use crate::diagnostic::{DiagnosticKind, notes_view};
use crate::document::{ConfigDocument, ConfigKey, ValueView, lookup, shown};
use crate::duration::{
    amount_reading, countdown_notes, countdown_seconds, unit_factor, unit_reading,
    uses_amount_and_unit,
};
use crate::presence::{Derivation, LoopAnchor, Timestamp, derive_notes, derived_payload};
use crate::text::lower_of;

verus! {

/// A document without `details` gives a payload without details, and one
/// without `state` a payload without state: neither is replaced by a
/// placeholder or an empty string, and each absence is reported.
pub proof fn absent_text_is_omitted(doc: Map<ConfigKey, ValueView>, anchor: LoopAnchor)
    ensures
        !doc.contains_key(ConfigKey::Details) ==> derived_payload(doc, anchor).details is None
            && derive_notes(doc).contains((DiagnosticKind::DetailsMissing, None)),
        !doc.contains_key(ConfigKey::State) ==> derived_payload(doc, anchor).state is None
            && derive_notes(doc).contains((DiagnosticKind::StateMissing, None)),
{
    let n = derive_notes(doc);
    if !doc.contains_key(ConfigKey::Details) {
        assert(n[0] == (DiagnosticKind::DetailsMissing, None::<Seq<char>>));
    }
    if !doc.contains_key(ConfigKey::State) {
        if doc.contains_key(ConfigKey::Details) {
            assert(n[0] == (DiagnosticKind::StateMissing, None::<Seq<char>>));
        } else {
            assert(n[1] == (DiagnosticKind::StateMissing, None::<Seq<char>>));
        }
    }
}

/// When `timer.enabled` is absent or false, no timestamp is set, whatever
/// `timer.type` holds.
pub proof fn disabled_timer_sets_no_timestamp(doc: Map<ConfigKey, ValueView>, anchor: LoopAnchor)
    requires
        lookup(doc, ConfigKey::TimerEnabled) is None || lookup(doc, ConfigKey::TimerEnabled)
            == Some(ValueView::Switch(false)),
    ensures
        derived_payload(doc, anchor).timestamp == Timestamp::NoTimer,
{
}

/// A unit that is not recognised once lower-cased counts seconds, and is
/// reported with the value found; in a document that gives its countdown as
/// an amount and a unit, the countdown is then the amount itself.
pub proof fn unknown_unit_counts_seconds(doc: Map<ConfigKey, ValueView>, unit: ValueView)
    requires
        unit_factor(lower_of(shown(unit))) is None,
    ensures
        unit_reading(Some(unit)).0 == 1,
        unit_reading(Some(unit)).1 == Some((DiagnosticKind::UnitUnknown, Some(shown(unit)))),
        uses_amount_and_unit(doc) && lookup(doc, ConfigKey::DurationUnit) == Some(unit)
            ==> countdown_seconds(doc) == amount_reading(lookup(doc, ConfigKey::DurationAmount)).0
            && countdown_notes(doc).contains((DiagnosticKind::UnitUnknown, Some(shown(unit)))),
{
    if uses_amount_and_unit(doc) && lookup(doc, ConfigKey::DurationUnit) == Some(unit) {
        let a = amount_reading(lookup(doc, ConfigKey::DurationAmount));
        let n = countdown_notes(doc);
        if a.1 is Some {
            assert(n[1] == (DiagnosticKind::UnitUnknown, Some(shown(unit))));
        } else {
            assert(n[0] == (DiagnosticKind::UnitUnknown, Some(shown(unit))));
        }
    }
}

/// Separate fields of 24 hours, whatever the minutes and seconds, give a
/// countdown of 23:59:59, one second short of a full day.
pub proof fn full_day_is_clamped(doc: Map<ConfigKey, ValueView>)
    requires
        !uses_amount_and_unit(doc),
        lookup(doc, ConfigKey::DurationHours) == Some(ValueView::Int(24)),
    ensures
        countdown_seconds(doc) == 23 * 3600 + 59 * 60 + 59,
{
}

/// Deriving twice from the same document and the same fixed instants gives
/// identical payloads and identical diagnostics.
pub proof fn derive_is_repeatable(
    doc: ConfigDocument,
    anchor: LoopAnchor,
    first: Derivation,
    second: Derivation,
)
    requires
        first.payload@ == derived_payload(doc@, anchor),
        notes_view(first.diagnostics@) == derive_notes(doc@),
        second.payload@ == derived_payload(doc@, anchor),
        notes_view(second.diagnostics@) == derive_notes(doc@),
    ensures
        first.payload@ == second.payload@,
        notes_view(first.diagnostics@) == notes_view(second.diagnostics@),
{
}

} // verus!
