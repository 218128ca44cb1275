use discord_presence::diagnostic::DiagnosticKind;
use discord_presence::document::{ConfigDocument, ConfigKey, ConfigValue};
use discord_presence::presence::{derive_presence, LoopAnchor, Timestamp};

fn text(s: &str) -> ConfigValue {
    ConfigValue::Text(s.to_string())
}

fn timer_group() -> ConfigValue {
    ConfigValue::Other("{ }".to_string())
}

fn kinds(notes: &[discord_presence::diagnostic::Diagnostic]) -> Vec<DiagnosticKind> {
    notes.iter().map(|d| d.kind).collect()
}

#[test]
fn countdown_scenario_ends_ninety_minutes_after_start() {
    let t: i64 = 1_700_000_000;
    let mut doc = ConfigDocument::empty();
    doc.set(ConfigKey::State, text("Ready"));
    doc.set(ConfigKey::Timer, timer_group());
    doc.set(ConfigKey::TimerEnabled, ConfigValue::Switch(true));
    doc.set(ConfigKey::TimerType, text("countdown"));
    doc.set(ConfigKey::DurationHours, ConfigValue::Int(1));
    doc.set(ConfigKey::DurationMinutes, ConfigValue::Int(30));
    doc.set(ConfigKey::DurationSeconds, ConfigValue::Int(0));
    let (anchor, notes) = LoopAnchor::capture(&doc, t);
    assert!(notes.is_empty());
    let r = derive_presence(&doc, &anchor);
    assert_eq!(r.payload.state, Some("Ready".to_string()));
    assert_eq!(r.payload.details, None);
    assert_eq!(r.payload.timestamp, Timestamp::EndAt(t + 5400));
    assert_eq!(r.payload.large_image, "large_image");
    assert_eq!(kinds(&r.diagnostics), vec![DiagnosticKind::DetailsMissing]);
}

#[test]
fn bogus_timer_type_starts_from_loop_start() {
    let t: i64 = 1_600_000_000;
    let mut doc = ConfigDocument::empty();
    doc.set(ConfigKey::Timer, timer_group());
    doc.set(ConfigKey::TimerEnabled, ConfigValue::Switch(true));
    doc.set(ConfigKey::TimerType, text("bogus"));
    let (anchor, _) = LoopAnchor::capture(&doc, t);
    let r = derive_presence(&doc, &anchor);
    assert_eq!(r.payload.timestamp, Timestamp::StartFrom(t));
    let invalid: Vec<_> = r
        .diagnostics
        .iter()
        .filter(|d| d.kind == DiagnosticKind::TimerTypeInvalid)
        .collect();
    assert_eq!(invalid.len(), 1);
    assert_eq!(invalid[0].value, Some("bogus".to_string()));
    assert!(invalid[0].line().contains("bogus"));
}

#[test]
fn empty_document_gives_bare_payload() {
    let doc = ConfigDocument::empty();
    let (anchor, notes) = LoopAnchor::capture(&doc, 42);
    assert!(notes.is_empty());
    assert_eq!(anchor.countdown_end, 42);
    let r = derive_presence(&doc, &anchor);
    assert_eq!(r.payload.details, None);
    assert_eq!(r.payload.state, None);
    assert_eq!(r.payload.timestamp, Timestamp::NoTimer);
    assert_eq!(
        kinds(&r.diagnostics),
        vec![
            DiagnosticKind::DetailsMissing,
            DiagnosticKind::StateMissing,
            DiagnosticKind::TimerGroupMissing,
            DiagnosticKind::TimerEnabledMissing,
        ]
    );
}

#[test]
fn missing_text_fields_are_omitted_not_empty() {
    let mut doc = ConfigDocument::empty();
    doc.set(ConfigKey::Details, text("Playing"));
    let anchor = LoopAnchor { started_at: 5, countdown_end: 5 };
    let r = derive_presence(&doc, &anchor);
    assert_eq!(r.payload.details, Some("Playing".to_string()));
    assert_eq!(r.payload.state, None);
    assert_eq!(kinds(&r.diagnostics)[0], DiagnosticKind::StateMissing);
}

#[test]
fn non_text_details_are_shown_as_displayed() {
    let mut doc = ConfigDocument::empty();
    doc.set(ConfigKey::Details, ConfigValue::Int(-12));
    doc.set(ConfigKey::State, ConfigValue::Switch(false));
    let anchor = LoopAnchor { started_at: 0, countdown_end: 0 };
    let r = derive_presence(&doc, &anchor);
    assert_eq!(r.payload.details, Some("-12".to_string()));
    assert_eq!(r.payload.state, Some("false".to_string()));
}

#[test]
fn disabled_timer_sets_no_timestamp_whatever_the_type() {
    let anchor = LoopAnchor { started_at: 100, countdown_end: 200 };
    for t in ["countdown", "normal", "bogus"] {
        let mut doc = ConfigDocument::empty();
        doc.set(ConfigKey::Timer, timer_group());
        doc.set(ConfigKey::TimerEnabled, ConfigValue::Switch(false));
        doc.set(ConfigKey::TimerType, text(t));
        let r = derive_presence(&doc, &anchor);
        assert_eq!(r.payload.timestamp, Timestamp::NoTimer);
        assert!(kinds(&r.diagnostics).contains(&DiagnosticKind::TimerDisabled));

        doc.remove(ConfigKey::TimerEnabled);
        let r = derive_presence(&doc, &anchor);
        assert_eq!(r.payload.timestamp, Timestamp::NoTimer);
        assert!(kinds(&r.diagnostics).contains(&DiagnosticKind::TimerEnabledMissing));
    }
}

#[test]
fn normal_timer_and_missing_type_start_from_loop_start() {
    let anchor = LoopAnchor { started_at: 100, countdown_end: 200 };
    let mut doc = ConfigDocument::empty();
    doc.set(ConfigKey::Timer, timer_group());
    doc.set(ConfigKey::TimerEnabled, ConfigValue::Switch(true));
    doc.set(ConfigKey::TimerType, text("normal"));
    let r = derive_presence(&doc, &anchor);
    assert_eq!(r.payload.timestamp, Timestamp::StartFrom(100));
    assert!(!kinds(&r.diagnostics).contains(&DiagnosticKind::TimerTypeInvalid));

    doc.remove(ConfigKey::TimerType);
    let r = derive_presence(&doc, &anchor);
    assert_eq!(r.payload.timestamp, Timestamp::StartFrom(100));
    assert!(kinds(&r.diagnostics).contains(&DiagnosticKind::TimerTypeMissing));
}

#[test]
fn enabled_flag_that_is_not_a_switch_sets_no_timestamp() {
    let anchor = LoopAnchor { started_at: 1, countdown_end: 2 };
    let mut doc = ConfigDocument::empty();
    doc.set(ConfigKey::Timer, timer_group());
    doc.set(ConfigKey::TimerEnabled, text("yes"));
    let r = derive_presence(&doc, &anchor);
    assert_eq!(r.payload.timestamp, Timestamp::NoTimer);
    assert_eq!(r.diagnostics.last().unwrap().kind, DiagnosticKind::TimerEnabledNotSwitch);
    assert_eq!(r.diagnostics.last().unwrap().value, Some("yes".to_string()));
}

#[test]
fn flag_outside_a_timer_group_is_not_read() {
    let anchor = LoopAnchor { started_at: 1, countdown_end: 2 };
    let mut doc = ConfigDocument::empty();
    doc.set(ConfigKey::TimerEnabled, ConfigValue::Switch(true));
    let r = derive_presence(&doc, &anchor);
    assert_eq!(r.payload.timestamp, Timestamp::NoTimer);
    assert_eq!(
        kinds(&r.diagnostics)[2..].to_vec(),
        vec![DiagnosticKind::TimerGroupMissing, DiagnosticKind::TimerEnabledMissing]
    );
}

#[test]
fn deriving_twice_gives_identical_payloads() {
    let mut doc = ConfigDocument::empty();
    doc.set(ConfigKey::Details, text("d"));
    doc.set(ConfigKey::Timer, timer_group());
    doc.set(ConfigKey::TimerEnabled, ConfigValue::Switch(true));
    doc.set(ConfigKey::TimerType, text("countdown"));
    doc.set(ConfigKey::DurationMinutes, ConfigValue::Int(5));
    let (anchor, _) = LoopAnchor::capture(&doc, 1000);
    let a = derive_presence(&doc, &anchor);
    let b = derive_presence(&doc, &anchor);
    assert_eq!(format!("{:?}", a), format!("{:?}", b));
    assert_eq!(a.payload.timestamp, Timestamp::EndAt(1300));
}
