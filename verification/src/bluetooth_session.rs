//! The session: the root that owns a bus connection.
//!
//! At creation a session fixes the match rule that selects which broadcast
//! signals the transport delivers: signals from the daemon, optionally
//! narrowed to one object subtree.  The rule set is immutable afterwards.
//! The transport opens the connection, installs the rule, drives the
//! connection for bounded windows and hands each delivered signal to the
//! event decoder.

use vstd::prelude::*;
use crate::BlurzError;

verus! {

/// The match rule a session installs: signals from the daemon, narrowed to
/// one object subtree when a path is given.
pub open spec fn session_match_rule(path: Option<Seq<char>>) -> Seq<char> {
    match path {
        Some(p) => "type='signal',sender='org.bluez'"@ + ",path='"@ + p + "'"@,
        None => "type='signal',sender='org.bluez'"@,
    }
}

/// A session's bus-facing identity: the match rule fixed at creation.
#[derive(Debug, Clone, PartialEq, Eq)]
pub struct BluetoothSession {
    match_rule: String,
}

impl View for BluetoothSession {
    type V = Seq<char>;

    closed spec fn view(&self) -> Seq<char> {
        self.match_rule@
    }
}

impl BluetoothSession {
    /// Fixes the session's match rule, optionally narrowed to the subtree
    /// under `path`.
    pub fn create_session(path: Option<&str>) -> (r: Result<BluetoothSession, BlurzError>)
        ensures
            r matches Ok(s) && s@ == session_match_rule(
                match path {
                    Some(p) => Some(p@),
                    None => None,
                },
            ),
    {
        let rule: String = match path {
            Some(p) => {
                let mut rule = "type='signal',sender='org.bluez'".to_owned();
                rule.append(",path='");
                rule.append(p);
                rule.append("'");
                rule
            }
            None => "type='signal',sender='org.bluez'".to_owned(),
        };
        Ok(BluetoothSession { match_rule: rule })
    }

    /// The match rule the transport installs on the connection.
    pub fn get_match_rule(&self) -> (r: &String)
        ensures
            r@ == self@,
    {
        &self.match_rule
    }
}

} // verus!
