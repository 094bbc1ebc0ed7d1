//! The record appended to the install history for an action that ran.

use crate::catalog::{key_of, SoftwareId};
use crate::manager::{action_label, opt_view, ActionKind};
use vstd::prelude::*;
use vstd::string::*;

verus! {

/// One completed action: the package's key, the action, the version found
/// afterwards, the source that did it, and when, in seconds since the epoch.
pub struct HistoryRecord {
    pub software: String,
    pub action: String,
    pub version: Option<String>,
    pub source: Option<String>,
    pub timestamp: u64,
}

impl HistoryRecord {
    pub fn new(
        id: SoftwareId,
        action: ActionKind,
        version: Option<String>,
        source: Option<String>,
        timestamp: u64,
    ) -> (r: Self)
        ensures
            r.software@ == key_of(id),
            r.action@ == action_label(action),
            opt_view(r.version) == opt_view(version),
            opt_view(r.source) == opt_view(source),
            r.timestamp == timestamp,
    {
        HistoryRecord {
            software: String::from_str(id.key()),
            action: String::from_str(action.label()),
            version,
            source,
            timestamp,
        }
    }
}

} // verus!
