//! The rules of the configuration editor: how its fields are filled from
//! the document, and what an edit writes back.

use vstd::prelude::*;

use crate::document::{ConfigValue, ValueView, opt_view, shown};
use crate::duration::int_or_zero;
use crate::text::{same_text, trim, trimmed_of};

verus! {

/// What a text entry writes back to its key.
#[derive(Clone, Copy, Debug, PartialEq, Eq, Structural)]
pub enum TextEdit {
    /// Remove the key: the entry holds less than two bytes once trimmed.
    Remove,
    /// Store the entry as it was typed.
    Store,
}

/// Whether text takes less than two bytes in UTF-8: it is empty, or one
/// ASCII character.
pub open spec fn under_two_bytes(t: Seq<char>) -> bool {
    t.len() == 0 || (t.len() == 1 && (t[0] as u32) < 0x80)
}

/// What an edit of a text entry does: entries that are blank or of a single
/// byte once trimmed remove the key.
pub open spec fn text_edit_of(entry: Seq<char>) -> TextEdit {
    if under_two_bytes(trimmed_of(entry)) {
        TextEdit::Remove
    } else {
        TextEdit::Store
    }
}

/// What an edit of a text entry does.
pub fn text_edit(entry: &str) -> (r: TextEdit)
    ensures
        r == text_edit_of(entry@),
{
    let t = trim(entry);
    let n = t.unicode_len();
    if n == 0 || (n == 1 && (t.get_char(0) as u32) < 0x80) {
        TextEdit::Remove
    } else {
        TextEdit::Store
    }
}

/// The text a text entry starts with: the displayed value, or the
/// placeholder when the key is absent.
pub fn entry_text(v: Option<&ConfigValue>, placeholder: &str) -> (r: String)
    ensures
        r@ == match opt_view(v) {
            Some(x) => shown(x),
            None => placeholder@,
        },
{
    match v {
        Some(x) => x.shown_text(),
        None => String::from_str(placeholder),
    }
}

/// The value a number field starts with: the integer, or zero for a missing
/// or non-integer value.
pub fn number_field(v: Option<&ConfigValue>) -> (r: i32)
    ensures
        r == int_or_zero(opt_view(v)),
{
    match v {
        Some(ConfigValue::Int(n)) => *n,
        _ => 0,
    }
}

/// Whether the timer checkbox starts checked: only for a true switch.
pub fn timer_checked(v: Option<&ConfigValue>) -> (r: bool)
    ensures
        r == (opt_view(v) == Some(ValueView::Switch(true))),
{
    match v {
        Some(ConfigValue::Switch(b)) => *b,
        _ => false,
    }
}

/// The entry of the timer type list that stands for a normal timer.
pub const NORMAL_CHOICE: i64 = 206158430208;

/// The entry of the timer type list that stands for a countdown.
pub const COUNTDOWN_CHOICE: i64 = 206158430209;

/// The two kinds of timer the editor offers.
#[derive(Clone, Copy, Debug, PartialEq, Eq, Structural)]
pub enum TimerKind {
    Normal,
    Countdown,
}

/// The name a kind of timer is stored under.
pub open spec fn kind_name(k: TimerKind) -> Seq<char> {
    match k {
        TimerKind::Normal => "normal"@,
        TimerKind::Countdown => "countdown"@,
    }
}

impl TimerKind {
    /// The kind for an entry of the timer type list; any entry but the
    /// countdown one means a normal timer.
    pub fn from_choice(choice: i64) -> (r: TimerKind)
        ensures
            r == (if choice == COUNTDOWN_CHOICE {
                TimerKind::Countdown
            } else {
                TimerKind::Normal
            }),
    {
        if choice == COUNTDOWN_CHOICE {
            TimerKind::Countdown
        } else {
            TimerKind::Normal
        }
    }

    /// The entry of the timer type list for this kind.
    pub fn choice(&self) -> (r: i64)
        ensures
            r == match self {
                TimerKind::Normal => NORMAL_CHOICE,
                TimerKind::Countdown => COUNTDOWN_CHOICE,
            },
    {
        match self {
            TimerKind::Normal => NORMAL_CHOICE,
            TimerKind::Countdown => COUNTDOWN_CHOICE,
        }
    }

    /// The name this kind is stored under at `timer.type`.
    pub fn name(&self) -> (r: &'static str)
        ensures
            r@ == kind_name(*self),
    {
        match self {
            TimerKind::Normal => "normal",
            TimerKind::Countdown => "countdown",
        }
    }

    /// The kind a stored `timer.type` selects: a countdown only for the text
    /// `countdown`, a normal timer for anything else or nothing.
    pub fn of_value(v: Option<&ConfigValue>) -> (r: TimerKind)
        ensures
            r == (match opt_view(v) {
                Some(x) => if shown(x) == "countdown"@ {
                    TimerKind::Countdown
                } else {
                    TimerKind::Normal
                },
                None => TimerKind::Normal,
            }),
    {
        match v {
            Some(x) => {
                let name = x.shown_text();
                if same_text(name.as_str(), "countdown") {
                    TimerKind::Countdown
                } else {
                    TimerKind::Normal
                }
            },
            None => TimerKind::Normal,
        }
    }
}

} // verus!
