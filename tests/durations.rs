use discord_presence::diagnostic::DiagnosticKind;
use discord_presence::document::{ConfigDocument, ConfigKey, ConfigValue};
use discord_presence::duration::{
    clamp_hms, countdown_duration, factor_of_lowered, read_int_field, total_seconds,
    unit_multiplier,
};

#[test]
fn recognised_units_map_to_their_seconds() {
    for u in ["hours", "houre", "hor", "h"] {
        assert_eq!(factor_of_lowered(u), Some(3600));
    }
    for u in ["minutes", "minute", "min", "m"] {
        assert_eq!(factor_of_lowered(u), Some(60));
    }
    for u in ["seconds", "second", "sec", "s"] {
        assert_eq!(factor_of_lowered(u), Some(1));
    }
    assert_eq!(factor_of_lowered("Hours"), None);
    assert_eq!(factor_of_lowered(""), None);
}

#[test]
fn unit_names_are_lowercased_first() {
    let (f, note) = unit_multiplier(Some(&ConfigValue::Text("HOURS".to_string())));
    assert_eq!(f, 3600);
    assert!(note.is_none());
    let (f, note) = unit_multiplier(Some(&ConfigValue::Text("Min".to_string())));
    assert_eq!(f, 60);
    assert!(note.is_none());
}

#[test]
fn unknown_unit_counts_seconds_with_a_diagnostic() {
    for u in ["fortnight", "days", "hourss", " h"] {
        let (f, note) = unit_multiplier(Some(&ConfigValue::Text(u.to_string())));
        assert_eq!(f, 1);
        let note = note.unwrap();
        assert_eq!(note.kind, DiagnosticKind::UnitUnknown);
        assert_eq!(note.value, Some(u.to_string()));
    }
    let (f, note) = unit_multiplier(None);
    assert_eq!(f, 1);
    assert_eq!(note.unwrap().kind, DiagnosticKind::UnitMissing);
}

#[test]
fn full_day_is_clamped_below_a_day() {
    assert_eq!(clamp_hms(24, 0, 0), (23, 59, 59));
    assert_eq!(clamp_hms(23, 60, 60), (23, 59, 59));
    assert_eq!(clamp_hms(23, 59, 60), (23, 59, 60));
    assert_eq!(clamp_hms(1, 30, 0), (1, 30, 0));
    let mut doc = ConfigDocument::empty();
    doc.set(ConfigKey::DurationHours, ConfigValue::Int(24));
    doc.set(ConfigKey::DurationMinutes, ConfigValue::Int(0));
    doc.set(ConfigKey::DurationSeconds, ConfigValue::Int(0));
    let (secs, notes) = countdown_duration(&doc);
    assert_eq!(secs, 23 * 3600 + 59 * 60 + 59);
    assert!(notes.is_empty());
}

#[test]
fn separate_fields_add_up() {
    assert_eq!(total_seconds(1, 30, 0), 5400);
    assert_eq!(total_seconds(0, 0, 0), 0);
    assert_eq!(total_seconds(2, 1, 7), 7267);
}

#[test]
fn non_numeric_field_counts_zero_with_a_diagnostic() {
    let (n, note) = read_int_field(Some(&ConfigValue::Text("ten".to_string())), DiagnosticKind::HoursNotNumber);
    assert_eq!(n, 0);
    let note = note.unwrap();
    assert_eq!(note.kind, DiagnosticKind::HoursNotNumber);
    assert_eq!(note.value, Some("ten".to_string()));
    let (n, note) = read_int_field(None, DiagnosticKind::HoursNotNumber);
    assert_eq!(n, 0);
    assert!(note.is_none());

    let mut doc = ConfigDocument::empty();
    doc.set(ConfigKey::DurationHours, ConfigValue::Text("ten".to_string()));
    doc.set(ConfigKey::DurationSeconds, ConfigValue::Int(9));
    let (secs, notes) = countdown_duration(&doc);
    assert_eq!(secs, 9);
    assert_eq!(notes.len(), 1);
    assert_eq!(notes[0].kind, DiagnosticKind::HoursNotNumber);
}

#[test]
fn amount_and_unit_give_the_countdown() {
    let mut doc = ConfigDocument::empty();
    doc.set(ConfigKey::DurationAmount, ConfigValue::Int(2));
    doc.set(ConfigKey::DurationUnit, ConfigValue::Text("Hours".to_string()));
    let (secs, notes) = countdown_duration(&doc);
    assert_eq!(secs, 7200);
    assert!(notes.is_empty());

    doc.set(ConfigKey::DurationUnit, ConfigValue::Text("weeks".to_string()));
    let (secs, notes) = countdown_duration(&doc);
    assert_eq!(secs, 2);
    assert_eq!(notes[0].kind, DiagnosticKind::UnitUnknown);

    doc.remove(ConfigKey::DurationUnit);
    let (secs, notes) = countdown_duration(&doc);
    assert_eq!(secs, 2);
    assert_eq!(notes[0].kind, DiagnosticKind::UnitMissing);
}

#[test]
fn missing_or_invalid_amount_counts_zero() {
    let mut doc = ConfigDocument::empty();
    doc.set(ConfigKey::DurationUnit, ConfigValue::Text("m".to_string()));
    let (secs, notes) = countdown_duration(&doc);
    assert_eq!(secs, 0);
    assert_eq!(notes.len(), 1);
    assert_eq!(notes[0].kind, DiagnosticKind::AmountMissing);

    doc.set(ConfigKey::DurationAmount, ConfigValue::Text("five".to_string()));
    let (secs, notes) = countdown_duration(&doc);
    assert_eq!(secs, 0);
    assert_eq!(notes[0].kind, DiagnosticKind::AmountNotNumber);
    assert_eq!(notes[0].value, Some("five".to_string()));
}

#[test]
fn separate_fields_take_precedence_over_amount() {
    let mut doc = ConfigDocument::empty();
    doc.set(ConfigKey::DurationAmount, ConfigValue::Int(2));
    doc.set(ConfigKey::DurationUnit, ConfigValue::Text("h".to_string()));
    doc.set(ConfigKey::DurationMinutes, ConfigValue::Int(3));
    let (secs, _) = countdown_duration(&doc);
    assert_eq!(secs, 180);
}
