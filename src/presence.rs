//! The presence payload, and the procedure that derives it from a
//! configuration document.

use vstd::prelude::*;

use crate::diagnostic::{Diagnostic, DiagnosticKind, NoteView, note_matches, notes_view, opt_notes, push_note};
use crate::document::{ConfigDocument, ConfigKey, ConfigValue, ValueView, lookup, opt_view, shown};
use crate::duration::{countdown_duration, countdown_notes, countdown_seconds};
use crate::text::same_text;

verus! {

/// The largest distance from the epoch, in seconds, of the instant at which
/// a refresh loop may start; it keeps every countdown instant in an `i64`.
pub const EPOCH_LIMIT: i64 = 0x4000_0000_0000_0000;

/// The timestamp directive of a payload.
#[derive(Clone, Copy, Debug, PartialEq, Eq, Structural)]
pub enum Timestamp {
    /// No timer is shown.
    NoTimer,
    /// A timer that counts up from this instant, in seconds since the epoch.
    StartFrom(i64),
    /// A timer that counts down to this instant, in seconds since the epoch.
    EndAt(i64),
}

/// The instants a refresh loop fixes once, when it starts: the start itself
/// and the end of the configured countdown.
#[derive(Clone, Copy, Debug, PartialEq, Eq, Structural)]
pub struct LoopAnchor {
    pub started_at: i64,
    pub countdown_end: i64,
}

/// The activity payload published on each refresh.
#[derive(Clone, Debug)]
pub struct PresencePayload {
    /// The upper line of text, when there is one.
    pub details: Option<String>,
    /// The lower line of text, when there is one.
    pub state: Option<String>,
    pub timestamp: Timestamp,
    /// The key of the large image asset, attached to every payload.
    pub large_image: String,
}

/// The mathematical form of a [`PresencePayload`].
pub struct PayloadView {
    pub details: Option<Seq<char>>,
    pub state: Option<Seq<char>>,
    pub timestamp: Timestamp,
    pub large_image: Seq<char>,
}

/// The view of an optional string.
pub open spec fn opt_text(s: Option<String>) -> Option<Seq<char>> {
    match s {
        Some(t) => Some(t@),
        None => None,
    }
}

impl View for PresencePayload {
    type V = PayloadView;

    open spec fn view(&self) -> PayloadView {
        PayloadView {
            details: opt_text(self.details),
            state: opt_text(self.state),
            timestamp: self.timestamp,
            large_image: self.large_image@,
        }
    }
}

/// The key of the large image asset.
pub open spec fn large_image_key() -> Seq<char> {
    "large_image"@
}

/// A payload together with the diagnostics of deriving it.
#[derive(Clone, Debug)]
pub struct Derivation {
    pub payload: PresencePayload,
    pub diagnostics: Vec<Diagnostic>,
}

/// A text line of the payload: the displayed value, or none when the key is
/// absent.
pub open spec fn text_line(v: Option<ValueView>) -> Option<Seq<char>> {
    match v {
        Some(x) => Some(shown(x)),
        None => None,
    }
}

/// The `timer.enabled` flag of a document. Like every dotted key, it is
/// found only inside a `timer` group.
pub open spec fn timer_flag(doc: Map<ConfigKey, ValueView>) -> Option<ValueView> {
    if doc.contains_key(ConfigKey::Timer) {
        lookup(doc, ConfigKey::TimerEnabled)
    } else {
        None
    }
}

/// The timestamp a document asks for, given the instants fixed at loop start.
pub open spec fn timer_mode(doc: Map<ConfigKey, ValueView>, anchor: LoopAnchor) -> Timestamp {
    match timer_flag(doc) {
        Some(ValueView::Switch(true)) => match lookup(doc, ConfigKey::TimerType) {
            Some(t) => if shown(t) == "countdown"@ {
                Timestamp::EndAt(anchor.countdown_end)
            } else {
                Timestamp::StartFrom(anchor.started_at)
            },
            None => Timestamp::StartFrom(anchor.started_at),
        },
        _ => Timestamp::NoTimer,
    }
}

/// The payload derived from a document, given the instants fixed at loop
/// start.
pub open spec fn derived_payload(doc: Map<ConfigKey, ValueView>, anchor: LoopAnchor) -> PayloadView {
    PayloadView {
        details: text_line(lookup(doc, ConfigKey::Details)),
        state: text_line(lookup(doc, ConfigKey::State)),
        timestamp: timer_mode(doc, anchor),
        large_image: large_image_key(),
    }
}

/// The one diagnostic `n` when `c` holds, else none.
pub open spec fn note_if(c: bool, n: NoteView) -> Seq<NoteView> {
    if c {
        seq![n]
    } else {
        Seq::empty()
    }
}

/// The diagnostic of reading the timer flag and type, if any.
pub open spec fn timer_note(doc: Map<ConfigKey, ValueView>) -> Option<NoteView> {
    match timer_flag(doc) {
        None => Some((DiagnosticKind::TimerEnabledMissing, None)),
        Some(ValueView::Switch(false)) => Some((DiagnosticKind::TimerDisabled, None)),
        Some(ValueView::Switch(true)) => match lookup(doc, ConfigKey::TimerType) {
            None => Some((DiagnosticKind::TimerTypeMissing, None)),
            Some(t) => if shown(t) == "normal"@ || shown(t) == "countdown"@ {
                None
            } else {
                Some((DiagnosticKind::TimerTypeInvalid, Some(shown(t))))
            },
        },
        Some(x) => Some((DiagnosticKind::TimerEnabledNotSwitch, Some(shown(x)))),
    }
}

/// The diagnostics of deriving a payload from a document, in order.
pub open spec fn derive_notes(doc: Map<ConfigKey, ValueView>) -> Seq<NoteView> {
    note_if(!doc.contains_key(ConfigKey::Details), (DiagnosticKind::DetailsMissing, None))
        + note_if(!doc.contains_key(ConfigKey::State), (DiagnosticKind::StateMissing, None))
        + note_if(!doc.contains_key(ConfigKey::Timer), (DiagnosticKind::TimerGroupMissing, None))
        + opt_notes(timer_note(doc))
}

} // verus!

verus! {

impl LoopAnchor {
    /// Fixes the instants of a refresh loop that starts at `now`: the start,
    /// and the end of the countdown the document configures. Also returns the
    /// diagnostics of reading that countdown.
    pub fn capture(doc: &ConfigDocument, now: i64) -> (r: (LoopAnchor, Vec<Diagnostic>))
        requires
            -EPOCH_LIMIT <= now <= EPOCH_LIMIT,
        ensures
            r.0.started_at == now,
            r.0.countdown_end == now + countdown_seconds(doc@),
            notes_view(r.1@) == countdown_notes(doc@),
    {
        let (seconds, notes) = countdown_duration(doc);
        (LoopAnchor { started_at: now, countdown_end: now + seconds }, notes)
    }
}

/// The displayed text of an optional value.
fn text_of(v: Option<&ConfigValue>) -> (r: Option<String>)
    ensures
        opt_text(r) == text_line(opt_view(v)),
{
    match v {
        Some(x) => Some(x.shown_text()),
        None => None,
    }
}

/// The timestamp and the timer diagnostic for a document.
fn timer_of(doc: &ConfigDocument, anchor: &LoopAnchor) -> (r: (Timestamp, Option<Diagnostic>))
    ensures
        r.0 == timer_mode(doc@, *anchor),
        note_matches(r.1, timer_note(doc@)),
{
    let flag = if doc.get(ConfigKey::Timer).is_some() {
        doc.get(ConfigKey::TimerEnabled)
    } else {
        None
    };
    match flag {
        None => (Timestamp::NoTimer, Some(Diagnostic::plain(DiagnosticKind::TimerEnabledMissing))),
        Some(ConfigValue::Switch(false)) => (
            Timestamp::NoTimer,
            Some(Diagnostic::plain(DiagnosticKind::TimerDisabled)),
        ),
        Some(ConfigValue::Switch(true)) => match doc.get(ConfigKey::TimerType) {
            None => (
                Timestamp::StartFrom(anchor.started_at),
                Some(Diagnostic::plain(DiagnosticKind::TimerTypeMissing)),
            ),
            Some(t) => {
                let name = t.shown_text();
                if same_text(name.as_str(), "countdown") {
                    (Timestamp::EndAt(anchor.countdown_end), None)
                } else if same_text(name.as_str(), "normal") {
                    (Timestamp::StartFrom(anchor.started_at), None)
                } else {
                    (
                        Timestamp::StartFrom(anchor.started_at),
                        Some(Diagnostic::about(DiagnosticKind::TimerTypeInvalid, name)),
                    )
                }
            },
        },
        Some(x) => (
            Timestamp::NoTimer,
            Some(Diagnostic::about(DiagnosticKind::TimerEnabledNotSwitch, x.shown_text())),
        ),
    }
}

/// Derives the payload for a document, given the instants fixed when the
/// refresh loop started, together with a diagnostic for every default
/// taken.
///
/// Details and state are copied as they are displayed, and left out when
/// absent. A timer is shown only when the `timer` group holds an enabled
/// flag that is true: a countdown to the fixed end when `timer.type` is
/// `countdown`, and otherwise (`normal`, absent, or anything else) a timer
/// from the fixed start.
pub fn derive_presence(doc: &ConfigDocument, anchor: &LoopAnchor) -> (r: Derivation)
    ensures
        r.payload@ == derived_payload(doc@, *anchor),
        notes_view(r.diagnostics@) == derive_notes(doc@),
{
    let mut notes: Vec<Diagnostic> = Vec::new();
    let details = text_of(doc.get(ConfigKey::Details));
    if details.is_none() {
        notes.push(Diagnostic::plain(DiagnosticKind::DetailsMissing));
    }
    let ghost after_details = notes@;
    let state = text_of(doc.get(ConfigKey::State));
    if state.is_none() {
        notes.push(Diagnostic::plain(DiagnosticKind::StateMissing));
    }
    let ghost after_state = notes@;
    if doc.get(ConfigKey::Timer).is_none() {
        notes.push(Diagnostic::plain(DiagnosticKind::TimerGroupMissing));
    }
    let ghost after_group = notes@;
    let (timestamp, timer_note_found) = timer_of(doc, anchor);
    push_note(&mut notes, timer_note_found);
    proof {
        let d = doc@;
        let n1 = note_if(!d.contains_key(ConfigKey::Details), (DiagnosticKind::DetailsMissing, None));
        let n2 = note_if(!d.contains_key(ConfigKey::State), (DiagnosticKind::StateMissing, None));
        let n3 = note_if(!d.contains_key(ConfigKey::Timer), (DiagnosticKind::TimerGroupMissing, None));
        assert(notes_view(after_details) =~= n1);
        assert(notes_view(after_state) =~= n1 + n2);
        assert(notes_view(after_group) =~= n1 + n2 + n3);
    }
    let payload = PresencePayload {
        details,
        state,
        timestamp,
        large_image: String::from_str("large_image"),
    };
    Derivation { payload, diagnostics: notes }
}

} // verus!
