//! OBEX object push: a remote-allocated session, a file transfer, and the
//! polled completion of the transfer.

use vstd::prelude::*;
use crate::BlurzError;
use crate::bluetooth_device::BluetoothDevice;
use crate::bus_types::{BusValue, MethodCall, ObjectRecord, check_object_path,
    is_valid_object_path, str_eq};
use crate::bluetooth_utils;
use crate::bluetooth_utils::{device_interface, graph_lookup, string_property};

verus! {

pub open spec fn obex_service() -> Seq<char> {
    "org.bluez.obex"@
}

pub open spec fn obex_path() -> Seq<char> {
    "/org/bluez/obex"@
}

pub open spec fn client_interface() -> Seq<char> {
    "org.bluez.obex.Client1"@
}

pub open spec fn object_push_interface() -> Seq<char> {
    "org.bluez.obex.ObjectPush1"@
}

pub open spec fn transfer_interface() -> Seq<char> {
    "org.bluez.obex.Transfer1"@
}

/// The profile a session is created for.
#[derive(Debug, Clone, PartialEq, Eq)]
pub enum SessionTarget {
    Ftp,
    Map_,
    Opp,
    Pbap,
    Sync_,
}

pub open spec fn session_target_str(t: SessionTarget) -> Seq<char> {
    match t {
        SessionTarget::Ftp => "ftp"@,
        SessionTarget::Map_ => "map"@,
        SessionTarget::Opp => "opp"@,
        SessionTarget::Pbap => "pbap"@,
        SessionTarget::Sync_ => "sync"@,
    }
}

impl SessionTarget {
    /// The target name as the daemon spells it.
    pub fn as_str(&self) -> (r: &str)
        ensures
            r@ == session_target_str(*self),
    {
        match self {
            SessionTarget::Ftp => "ftp",
            SessionTarget::Map_ => "map",
            SessionTarget::Opp => "opp",
            SessionTarget::Pbap => "pbap",
            SessionTarget::Sync_ => "sync",
        }
    }
}

/// The states a transfer moves through.  The queued, active and suspended
/// states may alternate in any order; complete and error are terminal.
#[derive(Debug, Clone, PartialEq, Eq)]
pub enum TransferState {
    Queued,
    Active,
    Complete,
    Suspended,
    Error,
}

pub open spec fn transfer_state_str(t: TransferState) -> Seq<char> {
    match t {
        TransferState::Queued => "queued"@,
        TransferState::Active => "active"@,
        TransferState::Complete => "complete"@,
        TransferState::Suspended => "suspended"@,
        TransferState::Error => "error"@,
    }
}

impl TransferState {
    /// The state name as the daemon publishes it.
    pub fn as_str(&self) -> (r: &str)
        ensures
            r@ == transfer_state_str(*self),
    {
        match self {
            TransferState::Queued => "queued",
            TransferState::Active => "active",
            TransferState::Complete => "complete",
            TransferState::Suspended => "suspended",
            TransferState::Error => "error",
        }
    }
}

/// Whether a string names one of the transfer states.
pub open spec fn is_transfer_state_str(s: Seq<char>) -> bool {
    ||| s == "queued"@
    ||| s == "active"@
    ||| s == "complete"@
    ||| s == "suspended"@
    ||| s == "error"@
}

/// Decides whether a string names a known transfer state.
fn is_known_state(s: &str) -> (r: bool)
    ensures
        r == is_transfer_state_str(s@),
{
    str_eq(s, "queued") || str_eq(s, "active") || str_eq(s, "complete") || str_eq(
        s,
        "suspended",
    ) || str_eq(s, "error")
}

/// What one poll of the transfer's status observed: the state string when
/// the read succeeded, or nothing when it failed.
pub open spec fn status_reading(r: Result<String, BlurzError>) -> Option<Seq<char>> {
    match r {
        Ok(s) => Some(s@),
        Err(_) => None,
    }
}

/// Whether a reading ends the poll loop: a failed read, completion, or the
/// terminal error state.
pub open spec fn reading_is_terminal(s: Option<Seq<char>>) -> bool {
    match s {
        None => true,
        Some(t) => t == "complete"@ || t == "error"@,
    }
}

/// How many polls the loop makes against a scripted sequence of readings:
/// it consumes readings until the first terminal one, inclusive.
pub open spec fn polls_until_done(readings: Seq<Option<Seq<char>>>) -> int
    decreases readings.len(),
{
    if readings.len() == 0 {
        0
    } else if reading_is_terminal(readings.first()) {
        1
    } else {
        1 + polls_until_done(readings.drop_first())
    }
}

/// Law: against a transfer whose status readings turn terminal by the
/// k-th poll, the poller stops after at most k + 1 polls; in particular a
/// transfer that completes after n intermediate states is polled at most
/// n + 1 times, and a failed read stops the loop at once.
pub proof fn lemma_poller_terminates(readings: Seq<Option<Seq<char>>>, k: int)
    requires
        0 <= k < readings.len(),
        reading_is_terminal(readings[k]),
    ensures
        polls_until_done(readings) <= k + 1,
    decreases k,
{
    if !reading_is_terminal(readings.first()) {
        lemma_poller_terminates(readings.drop_first(), k - 1);
    }
}

/// The length of a path without its trailing separators.
pub open spec fn trimmed_path_len(s: Seq<char>) -> int
    decreases s.len(),
{
    if s.len() == 0 {
        0
    } else if s.last() == '/' {
        trimmed_path_len(s.drop_last())
    } else {
        s.len() as int
    }
}

/// The position after the last separator of `s`.
pub open spec fn file_name_end(s: Seq<char>) -> int
    decreases s.len(),
{
    if s.len() == 0 {
        0
    } else if s.last() == '/' {
        s.len() as int
    } else {
        file_name_end(s.drop_last())
    }
}

/// The file name under which a pushed file travels: the final component
/// of the path, with trailing separators ignored.  A path with no final
/// component, or one ending in its parent component, keeps its full text
/// as the name.
pub open spec fn file_name_of(s: Seq<char>) -> Seq<char> {
    let t = s.take(trimmed_path_len(s));
    let name = t.skip(file_name_end(t));
    if name.len() == 0 || name == ".."@ {
        s
    } else {
        name
    }
}

/// Extracts the file name a push request carries.
pub fn file_name(path: &str) -> (r: String)
    ensures
        r@ == file_name_of(path@),
{
    let n = path.unicode_len();
    let mut end: usize = n;
    proof {
        assert(path@.take(n as int) =~= path@);
    }
    while end > 0 && path.get_char(end - 1) == '/'
        invariant
            end <= n,
            n == path@.len(),
            trimmed_path_len(path@) == trimmed_path_len(path@.take(end as int)),
        decreases end,
    {
        proof {
            assert(path@.take(end as int).last() == path@[end as int - 1]);
            assert(path@.take(end as int).drop_last() =~= path@.take(end as int - 1));
        }
        end = end - 1;
    }
    proof {
        if end > 0 {
            assert(path@.take(end as int).last() == path@[end as int - 1]);
        }
        assert(trimmed_path_len(path@) == end as int);
    }
    let mut cut: usize = 0;
    let mut i: usize = 0;
    proof {
        assert(path@.take(0).len() == 0);
    }
    while i < end
        invariant
            i <= end,
            cut <= i,
            end <= n,
            n == path@.len(),
            cut as int == file_name_end(path@.take(i as int)),
        decreases end - i,
    {
        proof {
            assert(path@.take(i as int + 1).drop_last() =~= path@.take(i as int));
            assert(path@.take(i as int + 1).last() == path@[i as int]);
        }
        if path.get_char(i) == '/' {
            cut = i + 1;
        }
        i = i + 1;
    }
    let name = path.substring_char(cut, end);
    proof {
        assert(path@.take(end as int).skip(cut as int) =~= path@.subrange(
            cut as int,
            end as int,
        ));
    }
    if name.is_empty() || str_eq(name, "..") {
        path.to_owned()
    } else {
        name.to_owned()
    }
}

/// Whether a dictionary value is the options of a session creation for the
/// object push profile: a single `Target` entry naming `opp`.
pub open spec fn is_opp_target_dict(v: BusValue) -> bool {
    match v {
        BusValue::Dict(entries) => {
            &&& entries@.len() == 1
            &&& entries@[0].0.str_value() == Some("Target"@)
            &&& match entries@[0].1 {
                BusValue::Variant(inner) => (*inner).str_value() == Some("opp"@),
                _ => false,
            }
        },
        _ => false,
    }
}

/// A push session that the OBEX daemon allocated: the path of the remote
/// session object.  Its remote lifetime is explicitly managed; removing
/// the session releases it.
#[derive(Debug, Clone, PartialEq, Eq)]
pub struct BluetoothOBEXSession {
    object_path: String,
}

impl View for BluetoothOBEXSession {
    type V = Seq<char>;

    closed spec fn view(&self) -> Seq<char> {
        self.object_path@
    }
}

impl BluetoothOBEXSession {
    /// Adopts the session object the daemon allocated, as decoded from the
    /// creation reply by [`crate::bus_types::decode_object_path_reply`].
    pub fn new(object_path: String) -> (r: BluetoothOBEXSession)
        ensures
            r@ == object_path@,
    {
        BluetoothOBEXSession { object_path }
    }

    pub fn get_id(&self) -> (r: String)
        ensures
            r@ == self@,
    {
        self.object_path.clone()
    }

    /// Builds the session creation request for a device: the device's
    /// address, read from the snapshot, and the object push target.
    pub fn create_session_call(device: &BluetoothDevice, objects: &Vec<ObjectRecord>) -> (r:
        Result<MethodCall, BlurzError>)
        ensures
            match string_property(objects@, device@, device_interface(), "Address"@) {
                Some(addr) => r matches Ok(c) && c.service@ == obex_service() && c.object_path@
                    == obex_path() && c.interface@ == client_interface() && c.member@
                    == "CreateSession"@ && c.args@.len() == 2 && c.args@[0].str_value() == Some(
                    addr,
                ) && is_opp_target_dict(c.args@[1]) && c.timeout_ms == 1000,
                None => r matches Err(e) && e is BusError,
            },
    {
        let address = device.get_address(objects)?;
        let target = SessionTarget::Opp;
        let mut entries: Vec<(BusValue, BusValue)> = Vec::new();
        entries.push(
            (BusValue::Str("Target".to_owned()), BusValue::Variant(
                Box::new(BusValue::Str(target.as_str().to_owned())),
            )),
        );
        let mut args: Vec<BusValue> = Vec::new();
        args.push(BusValue::Str(address));
        args.push(BusValue::Dict(entries));
        Ok(
            MethodCall {
                service: "org.bluez.obex".to_owned(),
                object_path: "/org/bluez/obex".to_owned(),
                interface: "org.bluez.obex.Client1".to_owned(),
                member: "CreateSession".to_owned(),
                args,
                timeout_ms: 1000,
            },
        )
    }

    /// Builds the request that releases the remote session.  A session
    /// path that does not spell a well-formed object path is rejected.
    pub fn remove_session(&self) -> (r: Result<MethodCall, BlurzError>)
        ensures
            is_valid_object_path(self@) ==> (r matches Ok(c) && c.service@ == obex_service()
                && c.object_path@ == obex_path() && c.interface@ == client_interface()
                && c.member@ == "RemoveSession"@ && c.args@.len() == 1 && (
            c.args@[0] matches BusValue::ObjectPath(p) && p@ == self@) && c.timeout_ms == 1000),
            !is_valid_object_path(self@) ==> (r matches Err(e) && e is Unknown),
    {
        if !check_object_path(self.object_path.as_str()) {
            return Err(BlurzError::Unknown("could not parse the session path".to_owned()));
        }
        let mut args: Vec<BusValue> = Vec::new();
        args.push(BusValue::ObjectPath(self.object_path.clone()));
        Ok(
            MethodCall {
                service: "org.bluez.obex".to_owned(),
                object_path: "/org/bluez/obex".to_owned(),
                interface: "org.bluez.obex.Client1".to_owned(),
                member: "RemoveSession".to_owned(),
                args,
                timeout_ms: 1000,
            },
        )
    }
}

/// One file push running under a session: the path of the remote transfer
/// object and the name of the pushed file.
#[derive(Debug, Clone, PartialEq, Eq)]
pub struct BluetoothOBEXTransfer {
    object_path: String,
    name: String,
}

impl View for BluetoothOBEXTransfer {
    type V = Seq<char>;

    closed spec fn view(&self) -> Seq<char> {
        self.object_path@
    }
}

impl BluetoothOBEXTransfer {
    pub closed spec fn name_view(&self) -> Seq<char> {
        self.name@
    }

    /// Builds the push request for a local file.
    pub fn send_file(session: &BluetoothOBEXSession, file_path: &str) -> (r: MethodCall)
        ensures
            r.service@ == obex_service(),
            r.object_path@ == session@,
            r.interface@ == object_push_interface(),
            r.member@ == "SendFile"@,
            r.args@.len() == 1,
            r.args@[0].str_value() == Some(file_path@),
            r.timeout_ms == 1000,
    {
        let mut args: Vec<BusValue> = Vec::new();
        args.push(BusValue::Str(file_path.to_owned()));
        MethodCall {
            service: "org.bluez.obex".to_owned(),
            object_path: session.get_id(),
            interface: "org.bluez.obex.ObjectPush1".to_owned(),
            member: "SendFile".to_owned(),
            args,
            timeout_ms: 1000,
        }
    }

    /// Adopts the transfer object the daemon allocated for a push of
    /// `file_path`, as decoded from the push reply.
    pub fn new(object_path: String, file_path: &str) -> (r: BluetoothOBEXTransfer)
        ensures
            r@ == object_path@,
            r.name_view() == file_name_of(file_path@),
    {
        let name = file_name(file_path);
        BluetoothOBEXTransfer { object_path, name }
    }

    /// The name of the pushed file.
    pub fn get_name(&self) -> (r: &String)
        ensures
            r@ == self.name_view(),
    {
        &self.name
    }

    pub fn get_id(&self) -> (r: String)
        ensures
            r@ == self@,
    {
        self.object_path.clone()
    }

    /// The transfer's state string, read from a snapshot of the OBEX
    /// daemon's published objects.  A status that cannot be decoded as one
    /// of the known state strings is a decoding failure, whether it was
    /// published with the wrong type or as an unrecognized string.
    pub fn status(&self, objects: &Vec<ObjectRecord>) -> (r: Result<String, BlurzError>)
        ensures
            match graph_lookup(objects@, self@, transfer_interface(), "Status"@) {
                Some(v) => (match v.str_value() {
                    Some(s) => {
                        &&& is_transfer_state_str(s) ==> (r matches Ok(out) && out@ == s)
                        &&& !is_transfer_state_str(s) ==> r == Err::<String, BlurzError>(
                            BlurzError::FailedToGetStatus,
                        )
                    },
                    None => r == Err::<String, BlurzError>(BlurzError::FailedToGetStatus),
                }),
                None => r matches Err(e) && e is BusError,
            },
    {
        let v = bluetooth_utils::get_property(
            objects,
            "org.bluez.obex.Transfer1",
            self.object_path.as_str(),
            "Status",
        )?;
        match v {
            BusValue::Str(s) => {
                if is_known_state(s.as_str()) {
                    Ok(s.clone())
                } else {
                    Err(BlurzError::FailedToGetStatus)
                }
            }
            _ => Err(BlurzError::FailedToGetStatus),
        }
    }

    /// Decides whether one poll of the status ends the completion wait:
    /// the loop ends on completion, on the terminal error state, and on a
    /// failed read, and continues on every other state.
    pub fn poll_done(status: &Result<String, BlurzError>) -> (done: bool)
        ensures
            done == reading_is_terminal(status_reading(*status)),
    {
        match status {
            Ok(s) => str_eq(s.as_str(), "complete") || str_eq(s.as_str(), "error"),
            Err(_) => true,
        }
    }
}

} // verus!
