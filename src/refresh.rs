//! The decisions of the refresh loop: when it may start, which application
//! it speaks for, and how long it waits between refreshes.

use vstd::prelude::*;

use crate::document::{ConfigDocument, ConfigKey, ConfigValue, ValueView, lookup, shown};
use crate::text::{parse_u64, parsed_u64};

verus! {

/// The application id used when the document names none.
pub const DEFAULT_CLIENT_ID: u64 = 656753180901638144;

/// Seconds between two refreshes of the payload.
pub const REFRESH_SECONDS: u64 = 10;

/// Why a document names no usable application id.
#[derive(Clone, Copy, Debug, PartialEq, Eq, Structural)]
pub enum ClientIdError {
    /// `client_id` is present but is not an unsigned integer.
    NotANumber,
}

/// The application id a document names: its `client_id` as an unsigned
/// integer, or the default when absent; `None` when it is present but names
/// no unsigned integer.
pub open spec fn client_id_of(doc: Map<ConfigKey, ValueView>) -> Option<u64> {
    match lookup(doc, ConfigKey::ClientId) {
        None => Some(DEFAULT_CLIENT_ID),
        Some(ValueView::Int(n)) => if n >= 0 {
            Some(n as u64)
        } else {
            None
        },
        Some(x) => parsed_u64(shown(x)),
    }
}

/// The application id the refresh loop connects with.
pub fn client_id(doc: &ConfigDocument) -> (r: Result<u64, ClientIdError>)
    ensures
        r is Ok <==> client_id_of(doc@) is Some,
        r is Ok ==> r->Ok_0 == client_id_of(doc@)->0,
        r is Err ==> r->Err_0 == ClientIdError::NotANumber,
{
    let found = match doc.get(ConfigKey::ClientId) {
        None => Some(DEFAULT_CLIENT_ID),
        Some(ConfigValue::Int(n)) => if *n >= 0 {
            Some(*n as u64)
        } else {
            None
        },
        Some(x) => {
            let text = x.shown_text();
            parse_u64(text.as_str())
        },
    };
    match found {
        Some(id) => Ok(id),
        None => Err(ClientIdError::NotANumber),
    }
}

/// A one-way latch: the refresh loop starts at most once per process.
#[derive(Debug)]
pub struct StartLatch {
    started: bool,
}

impl StartLatch {
    /// Whether the loop has been started.
    pub closed spec fn started(&self) -> bool {
        self.started
    }

    /// A latch whose loop has not started.
    pub fn new() -> (r: StartLatch)
        ensures
            !r.started(),
    {
        StartLatch { started: false }
    }

    /// Whether the loop has been started.
    pub fn is_started(&self) -> (r: bool)
        ensures
            r == self.started(),
    {
        self.started
    }

    /// Asks to start the loop: true only the first time, when the caller is
    /// to start it. Later requests change nothing and return false.
    pub fn try_start(&mut self) -> (r: bool)
        ensures
            r == !old(self).started(),
            final(self).started(),
    {
        if self.started {
            false
        } else {
            self.started = true;
            true
        }
    }
}

} // verus!
