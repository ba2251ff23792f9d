//! Audit events and the selection of the most recent ones from a loaded
//! log. Reading and appending the log file, and encoding events as log
//! lines, happen in the persistence layer around the library.

use vstd::prelude::*;

verus! {

/// The kinds of audit events the application records.
#[derive(Clone, Copy, Debug, PartialEq, Eq, Structural)]
pub enum AuditEventType {
    CommandApproved,
    CommandRejected,
    CommandExecuted,
}

/// One audit event: what happened, to which command, why, with what exit
/// code, and when.
#[derive(Debug)]
pub struct AuditEvent {
    pub event_type: String,
    pub command: String,
    pub reason: Option<String>,
    pub exit_code: Option<i32>,
    pub timestamp: String,
}

impl Clone for AuditEvent {
    fn clone(&self) -> (r: Self)
        ensures
            r == *self,
    {
        AuditEvent {
            event_type: self.event_type.clone(),
            command: self.command.clone(),
            reason: match &self.reason {
                Some(s) => Some(s.clone()),
                None => None,
            },
            exit_code: self.exit_code,
            timestamp: self.timestamp.clone(),
        }
    }
}

/// The most recent events of a chronologically ordered log: the last
/// `limit` of them (all of them if there are fewer), with the limit
/// defaulting to 100.
pub fn select_recent_events(events: Vec<AuditEvent>, limit: Option<usize>) -> (r: Vec<AuditEvent>)
    ensures
        ({
            let n = (match limit {
                Some(l) => l as int,
                None => 100int,
            });
            let start = if events@.len() > n {
                events@.len() - n
            } else {
                0int
            };
            r@ == events@.skip(start)
        }),
{
    let n: usize = match limit {
        Some(l) => l,
        None => 100,
    };
    let start: usize = if events.len() > n {
        events.len() - n
    } else {
        0
    };
    let mut events = events;
    let ghost orig = events@;
    let tail = events.split_off(start);
    proof {
        assert(tail@ =~= orig.skip(start as int));
    }
    tail
}

} // verus!
