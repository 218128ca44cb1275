//! Diagnostics: the notices that accompany every default the derivation
//! substitutes for a missing or invalid configuration value.

use vstd::prelude::*;

verus! {

/// What a diagnostic reports.
#[derive(Clone, Copy, Debug, PartialEq, Eq, Structural)]
pub enum DiagnosticKind {
    /// No `details` value; the payload has no details line.
    DetailsMissing,
    /// No `state` value; the payload has no state line.
    StateMissing,
    /// No `timer` group at all.
    TimerGroupMissing,
    /// No `timer.enabled` flag; no timestamp is set.
    TimerEnabledMissing,
    /// `timer.enabled` is not a switch; no timestamp is set.
    TimerEnabledNotSwitch,
    /// `timer.enabled` is false; no timestamp is set.
    TimerDisabled,
    /// The timer is enabled but `timer.type` is absent; a normal timer is used.
    TimerTypeMissing,
    /// `timer.type` is neither `normal` nor `countdown`; a normal timer is used.
    TimerTypeInvalid,
    /// `timer.duration_h` is not an integer; zero hours are used.
    HoursNotNumber,
    /// `timer.duration_m` is not an integer; zero minutes are used.
    MinutesNotNumber,
    /// `timer.duration_s` is not an integer; zero seconds are used.
    SecondsNotNumber,
    /// `timer.duration` is absent; a zero amount is used.
    AmountMissing,
    /// `timer.duration` is not an integer; a zero amount is used.
    AmountNotNumber,
    /// `timer.unit` is absent; the amount counts seconds.
    UnitMissing,
    /// `timer.unit` names no known unit; the amount counts seconds.
    UnitUnknown,
}

/// One diagnostic: its kind and, where one was found, the offending value as
/// it is displayed.
#[derive(Clone, Debug)]
pub struct Diagnostic {
    pub kind: DiagnosticKind,
    pub value: Option<String>,
}

/// The mathematical form of a [`Diagnostic`].
pub type NoteView = (DiagnosticKind, Option<Seq<char>>);

impl View for Diagnostic {
    type V = NoteView;

    open spec fn view(&self) -> NoteView {
        (self.kind, match self.value {
            Some(s) => Some(s@),
            None => None,
        })
    }
}

/// The views of a list of diagnostics.
pub open spec fn notes_view(v: Seq<Diagnostic>) -> Seq<NoteView> {
    v.map_values(|d: Diagnostic| d@)
}

/// The sentence that describes a kind of diagnostic.
pub open spec fn kind_sentence(k: DiagnosticKind) -> Seq<char> {
    match k {
        DiagnosticKind::DetailsMissing => "No details property has been provided, skipped it"@,
        DiagnosticKind::StateMissing => "No state property has been provided, skipped it"@,
        DiagnosticKind::TimerGroupMissing => "No \"timer\" object was added"@,
        DiagnosticKind::TimerEnabledMissing => "No enabled property for the timer was set, skipping timer"@,
        DiagnosticKind::TimerEnabledNotSwitch => "The timer's enabled property is not a switch, skipping timer"@,
        DiagnosticKind::TimerDisabled => "Timer is disabled, no timer will be set"@,
        DiagnosticKind::TimerTypeMissing => "Timer was enabled but has no type, defaulted to \"normal\" timer type"@,
        DiagnosticKind::TimerTypeInvalid => "invalid timer type, defaulted to \"normal\" timer type"@,
        DiagnosticKind::HoursNotNumber => "\"timer.duration_h\" was not a number, used 0"@,
        DiagnosticKind::MinutesNotNumber => "\"timer.duration_m\" was not a number, used 0"@,
        DiagnosticKind::SecondsNotNumber => "\"timer.duration_s\" was not a number, used 0"@,
        DiagnosticKind::AmountMissing => "No \"timer.duration\" amount was set, used 0"@,
        DiagnosticKind::AmountNotNumber => "\"timer.duration\" was not a number, used 0"@,
        DiagnosticKind::UnitMissing => "No \"timer.unit\" was set, counted the duration in seconds"@,
        DiagnosticKind::UnitUnknown => "unknown \"timer.unit\", counted the duration in seconds"@,
    }
}

/// The line that reports a diagnostic.
pub open spec fn note_line(n: NoteView) -> Seq<char> {
    match n.1 {
        Some(v) => kind_sentence(n.0) + " (found \""@ + v + "\")"@,
        None => kind_sentence(n.0),
    }
}

impl DiagnosticKind {
    /// The sentence that describes this kind of diagnostic.
    pub fn sentence(&self) -> (r: &'static str)
        ensures
            r@ == kind_sentence(*self),
    {
        match self {
            DiagnosticKind::DetailsMissing => "No details property has been provided, skipped it",
            DiagnosticKind::StateMissing => "No state property has been provided, skipped it",
            DiagnosticKind::TimerGroupMissing => "No \"timer\" object was added",
            DiagnosticKind::TimerEnabledMissing => "No enabled property for the timer was set, skipping timer",
            DiagnosticKind::TimerEnabledNotSwitch => "The timer's enabled property is not a switch, skipping timer",
            DiagnosticKind::TimerDisabled => "Timer is disabled, no timer will be set",
            DiagnosticKind::TimerTypeMissing => "Timer was enabled but has no type, defaulted to \"normal\" timer type",
            DiagnosticKind::TimerTypeInvalid => "invalid timer type, defaulted to \"normal\" timer type",
            DiagnosticKind::HoursNotNumber => "\"timer.duration_h\" was not a number, used 0",
            DiagnosticKind::MinutesNotNumber => "\"timer.duration_m\" was not a number, used 0",
            DiagnosticKind::SecondsNotNumber => "\"timer.duration_s\" was not a number, used 0",
            DiagnosticKind::AmountMissing => "No \"timer.duration\" amount was set, used 0",
            DiagnosticKind::AmountNotNumber => "\"timer.duration\" was not a number, used 0",
            DiagnosticKind::UnitMissing => "No \"timer.unit\" was set, counted the duration in seconds",
            DiagnosticKind::UnitUnknown => "unknown \"timer.unit\", counted the duration in seconds",
        }
    }
}

impl Diagnostic {
    /// A diagnostic that carries no value.
    pub fn plain(kind: DiagnosticKind) -> (r: Diagnostic)
        ensures
            r@ == (kind, None::<Seq<char>>),
    {
        Diagnostic { kind, value: None }
    }

    /// A diagnostic about the value displayed as `value`.
    pub fn about(kind: DiagnosticKind, value: String) -> (r: Diagnostic)
        ensures
            r@ == (kind, Some(value@)),
    {
        Diagnostic { kind, value: Some(value) }
    }

    /// The human-readable line that reports this diagnostic.
    pub fn line(&self) -> (r: String)
        ensures
            r@ == note_line(self@),
    {
        let head = String::from_str(self.kind.sentence());
        match &self.value {
            Some(v) => head.concat(" (found \"").concat(v.as_str()).concat("\")"),
            None => head,
        }
    }
}

/// Whether the `Option` of a diagnostic matches its view.
pub open spec fn note_matches(d: Option<Diagnostic>, n: Option<NoteView>) -> bool {
    match d {
        Some(x) => n == Some(x@),
        None => n is None,
    }
}

/// The diagnostics an optional one stands for: none or that one.
pub open spec fn opt_notes(n: Option<NoteView>) -> Seq<NoteView> {
    match n {
        Some(x) => seq![x],
        None => Seq::empty(),
    }
}

/// Appends `d` to `notes`, if there is one.
pub fn push_note(notes: &mut Vec<Diagnostic>, d: Option<Diagnostic>)
    ensures
        forall|n: Option<NoteView>|
            note_matches(d, n) ==> notes_view(final(notes)@) == notes_view(old(notes)@)
                + opt_notes(n),
{
    let ghost before = notes@;
    match d {
        Some(x) => {
            notes.push(x);
            assert(notes_view(notes@) =~= notes_view(before) + seq![x@]);
        },
        None => {
            assert(notes_view(notes@) =~= notes_view(before) + Seq::<NoteView>::empty());
        },
    }
}

} // verus!
