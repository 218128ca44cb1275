//! The configuration document, as the derivation reads it.

use vstd::prelude::*;

use crate::text::{decimal_of, decimal_text};

verus! {

/// A configuration value at one dotted key.
///
/// `Other` stands for any value that is not a string, a switch or an
/// integer (a float, a list, a nested group, a blank), and carries the text
/// that the configuration store displays for it.
#[derive(Clone, Debug)]
pub enum ConfigValue {
    Text(String),
    Switch(bool),
    Int(i32),
    Other(String),
}

/// The mathematical form of a [`ConfigValue`].
pub ghost enum ValueView {
    Text(Seq<char>),
    Switch(bool),
    Int(i32),
    Other(Seq<char>),
}

impl View for ConfigValue {
    type V = ValueView;

    open spec fn view(&self) -> ValueView {
        match self {
            ConfigValue::Text(s) => ValueView::Text(s@),
            ConfigValue::Switch(b) => ValueView::Switch(*b),
            ConfigValue::Int(n) => ValueView::Int(*n),
            ConfigValue::Other(s) => ValueView::Other(s@),
        }
    }
}

/// The text a value is displayed as.
pub open spec fn shown(v: ValueView) -> Seq<char> {
    match v {
        ValueView::Text(s) => s,
        ValueView::Switch(b) => if b { "true"@ } else { "false"@ },
        ValueView::Int(n) => decimal_of(n),
        ValueView::Other(s) => s,
    }
}

impl ConfigValue {
    /// The text this value is displayed as.
    pub fn shown_text(&self) -> (r: String)
        ensures
            r@ == shown(self@),
    {
        match self {
            ConfigValue::Text(s) => s.clone(),
            ConfigValue::Switch(b) => if *b {
                String::from_str("true")
            } else {
                String::from_str("false")
            },
            ConfigValue::Int(n) => decimal_text(*n),
            ConfigValue::Other(s) => s.clone(),
        }
    }
}

} // verus!

verus! {

/// The dotted keys that the derivation and the editor read.
#[derive(Clone, Copy, Debug, PartialEq, Eq, Structural)]
pub enum ConfigKey {
    Details,
    State,
    Timer,
    TimerEnabled,
    TimerType,
    DurationHours,
    DurationMinutes,
    DurationSeconds,
    DurationAmount,
    DurationUnit,
    ClientId,
}

/// The dotted path of a key in the configuration file.
pub open spec fn key_path(k: ConfigKey) -> Seq<char> {
    match k {
        ConfigKey::Details => "details"@,
        ConfigKey::State => "state"@,
        ConfigKey::Timer => "timer"@,
        ConfigKey::TimerEnabled => "timer.enabled"@,
        ConfigKey::TimerType => "timer.type"@,
        ConfigKey::DurationHours => "timer.duration_h"@,
        ConfigKey::DurationMinutes => "timer.duration_m"@,
        ConfigKey::DurationSeconds => "timer.duration_s"@,
        ConfigKey::DurationAmount => "timer.duration"@,
        ConfigKey::DurationUnit => "timer.unit"@,
        ConfigKey::ClientId => "client_id"@,
    }
}

impl ConfigKey {
    /// The dotted path of this key in the configuration file.
    pub fn path(&self) -> (r: &'static str)
        ensures
            r@ == key_path(*self),
    {
        match self {
            ConfigKey::Details => "details",
            ConfigKey::State => "state",
            ConfigKey::Timer => "timer",
            ConfigKey::TimerEnabled => "timer.enabled",
            ConfigKey::TimerType => "timer.type",
            ConfigKey::DurationHours => "timer.duration_h",
            ConfigKey::DurationMinutes => "timer.duration_m",
            ConfigKey::DurationSeconds => "timer.duration_s",
            ConfigKey::DurationAmount => "timer.duration",
            ConfigKey::DurationUnit => "timer.unit",
            ConfigKey::ClientId => "client_id",
        }
    }

    /// Every key, each once.
    pub fn all() -> (r: Vec<ConfigKey>)
        ensures
            forall|k: ConfigKey| #[trigger] r@.contains(k),
            r@.no_duplicates(),
    {
        let r = vec![
            ConfigKey::Details,
            ConfigKey::State,
            ConfigKey::Timer,
            ConfigKey::TimerEnabled,
            ConfigKey::TimerType,
            ConfigKey::DurationHours,
            ConfigKey::DurationMinutes,
            ConfigKey::DurationSeconds,
            ConfigKey::DurationAmount,
            ConfigKey::DurationUnit,
            ConfigKey::ClientId,
        ];
        assert forall|k: ConfigKey| #[trigger] r@.contains(k) by {
            match k {
                ConfigKey::Details => assert(r@[0] == k),
                ConfigKey::State => assert(r@[1] == k),
                ConfigKey::Timer => assert(r@[2] == k),
                ConfigKey::TimerEnabled => assert(r@[3] == k),
                ConfigKey::TimerType => assert(r@[4] == k),
                ConfigKey::DurationHours => assert(r@[5] == k),
                ConfigKey::DurationMinutes => assert(r@[6] == k),
                ConfigKey::DurationSeconds => assert(r@[7] == k),
                ConfigKey::DurationAmount => assert(r@[8] == k),
                ConfigKey::DurationUnit => assert(r@[9] == k),
                ConfigKey::ClientId => assert(r@[10] == k),
            }
        }
        r
    }
}

/// What the configuration store holds at the keys of [`ConfigKey`].
///
/// A key that is absent from the store is absent here too: absence is a
/// meaningful state, distinct from an empty value.
#[derive(Clone, Debug)]
pub struct ConfigDocument {
    details: Option<ConfigValue>,
    state: Option<ConfigValue>,
    timer: Option<ConfigValue>,
    timer_enabled: Option<ConfigValue>,
    timer_type: Option<ConfigValue>,
    duration_hours: Option<ConfigValue>,
    duration_minutes: Option<ConfigValue>,
    duration_seconds: Option<ConfigValue>,
    duration_amount: Option<ConfigValue>,
    duration_unit: Option<ConfigValue>,
    client_id: Option<ConfigValue>,
}

impl ConfigDocument {
    pub closed spec fn slot(&self, k: ConfigKey) -> Option<ConfigValue> {
        match k {
            ConfigKey::Details => self.details,
            ConfigKey::State => self.state,
            ConfigKey::Timer => self.timer,
            ConfigKey::TimerEnabled => self.timer_enabled,
            ConfigKey::TimerType => self.timer_type,
            ConfigKey::DurationHours => self.duration_hours,
            ConfigKey::DurationMinutes => self.duration_minutes,
            ConfigKey::DurationSeconds => self.duration_seconds,
            ConfigKey::DurationAmount => self.duration_amount,
            ConfigKey::DurationUnit => self.duration_unit,
            ConfigKey::ClientId => self.client_id,
        }
    }
}

impl View for ConfigDocument {
    type V = Map<ConfigKey, ValueView>;

    closed spec fn view(&self) -> Map<ConfigKey, ValueView> {
        Map::new(|k: ConfigKey| self.slot(k) is Some, |k: ConfigKey| self.slot(k)->0@)
    }
}

impl ConfigDocument {
    /// A document with no keys.
    pub fn empty() -> (r: ConfigDocument)
        ensures
            r@ == Map::<ConfigKey, ValueView>::empty(),
    {
        let r = ConfigDocument {
            details: None,
            state: None,
            timer: None,
            timer_enabled: None,
            timer_type: None,
            duration_hours: None,
            duration_minutes: None,
            duration_seconds: None,
            duration_amount: None,
            duration_unit: None,
            client_id: None,
        };
        assert(r@ =~= Map::<ConfigKey, ValueView>::empty());
        r
    }

    /// The value at `k`, if the document has one.
    pub fn get(&self, k: ConfigKey) -> (r: Option<&ConfigValue>)
        ensures
            r is Some <==> self@.contains_key(k),
            r is Some ==> r->0@ == self@[k],
    {
        match k {
            ConfigKey::Details => self.details.as_ref(),
            ConfigKey::State => self.state.as_ref(),
            ConfigKey::Timer => self.timer.as_ref(),
            ConfigKey::TimerEnabled => self.timer_enabled.as_ref(),
            ConfigKey::TimerType => self.timer_type.as_ref(),
            ConfigKey::DurationHours => self.duration_hours.as_ref(),
            ConfigKey::DurationMinutes => self.duration_minutes.as_ref(),
            ConfigKey::DurationSeconds => self.duration_seconds.as_ref(),
            ConfigKey::DurationAmount => self.duration_amount.as_ref(),
            ConfigKey::DurationUnit => self.duration_unit.as_ref(),
            ConfigKey::ClientId => self.client_id.as_ref(),
        }
    }

    fn slot_mut(&mut self, k: ConfigKey) -> (r: &mut Option<ConfigValue>)
        ensures
            *r == old(self).slot(k),
            forall|j: ConfigKey| j != k ==> #[trigger] final(self).slot(j) == old(self).slot(j),
            final(self).slot(k) == *final(r),
    {
        match k {
            ConfigKey::Details => &mut self.details,
            ConfigKey::State => &mut self.state,
            ConfigKey::Timer => &mut self.timer,
            ConfigKey::TimerEnabled => &mut self.timer_enabled,
            ConfigKey::TimerType => &mut self.timer_type,
            ConfigKey::DurationHours => &mut self.duration_hours,
            ConfigKey::DurationMinutes => &mut self.duration_minutes,
            ConfigKey::DurationSeconds => &mut self.duration_seconds,
            ConfigKey::DurationAmount => &mut self.duration_amount,
            ConfigKey::DurationUnit => &mut self.duration_unit,
            ConfigKey::ClientId => &mut self.client_id,
        }
    }

    /// Stores `v` at `k`, replacing what was there.
    pub fn set(&mut self, k: ConfigKey, v: ConfigValue)
        ensures
            final(self)@ == old(self)@.insert(k, v@),
    {
        let ghost v_view = v@;
        let slot = self.slot_mut(k);
        *slot = Some(v);
        assert(final(self)@ =~= old(self)@.insert(k, v_view));
    }

    /// Removes the value at `k`, if there is one.
    pub fn remove(&mut self, k: ConfigKey)
        ensures
            final(self)@ == old(self)@.remove(k),
    {
        let slot = self.slot_mut(k);
        *slot = None;
        assert(final(self)@ =~= old(self)@.remove(k));
    }
}

/// The value at `k` in a document view, if there is one.
pub open spec fn lookup(doc: Map<ConfigKey, ValueView>, k: ConfigKey) -> Option<ValueView> {
    if doc.contains_key(k) {
        Some(doc[k])
    } else {
        None
    }
}

/// The view of an optional borrowed value.
pub open spec fn opt_view(v: Option<&ConfigValue>) -> Option<ValueView> {
    match v {
        Some(x) => Some(x@),
        None => None,
    }
}

} // verus!
