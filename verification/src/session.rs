//! Connection lifecycle: from operator input to an established capability
//! mirror or a reported, retryable failure.

use vstd::prelude::*;

use crate::edits::DeviceWrite;
use crate::edits::Edit;
use crate::edits::mirror_after;
use crate::edits::write_issued;
use crate::hex::hex_value;
use crate::hex::is_hex_u16;
use crate::hex::parse_hex_u16;
use crate::mirror::CapabilityMirror;

verus! {

/// Why a connection attempt did not reach an established session.
///
/// A failed device write during normal operation is not listed here: the
/// write-through controller discards it by design, so it never surfaces.
#[derive(Clone, Copy, PartialEq, Eq, Structural, Debug)]
pub enum ConnectError {
    /// One of the three connection fields is not a well-formed base-16
    /// 16-bit numeral; the device was not contacted.
    InvalidInput,
    /// The fields parsed but no matching device session could be opened.
    DeviceUnavailable,
}

/// Validated identifiers needed to open a device session, each parsed from a
/// hexadecimal field; no partial validation is accepted.
#[derive(Clone, Copy, PartialEq, Eq, Structural, Debug)]
pub struct ConnectionParams {
    pub vendor_id: u16,
    pub product_id: u16,
    pub usage_page: u16,
}

/// All three connection fields are well-formed base-16 16-bit numerals.
pub open spec fn spec_fields_valid(vid: Seq<char>, pid: Seq<char>, usage: Seq<char>) -> bool {
    is_hex_u16(vid) && is_hex_u16(pid) && is_hex_u16(usage)
}

/// The parameters that three well-formed fields denote.
pub open spec fn spec_params_of(vid: Seq<char>, pid: Seq<char>, usage: Seq<char>) -> ConnectionParams {
    ConnectionParams {
        vendor_id: hex_value(vid) as u16,
        product_id: hex_value(pid) as u16,
        usage_page: hex_value(usage) as u16,
    }
}

impl ConnectionParams {
    /// Parse the three hexadecimal connection fields. All three must parse
    /// before a connection attempt is made: one bad field invalidates the
    /// whole submission, and no parameters — hence no device call — come out
    /// of it.
    pub fn parse(vid: &str, pid: &str, usage: &str) -> (r: Result<ConnectionParams, ConnectError>)
        ensures
            r is Ok <==> spec_fields_valid(vid@, pid@, usage@),
            r matches Ok(p) ==> p == spec_params_of(vid@, pid@, usage@),
            r is Err ==> r == Err::<ConnectionParams, ConnectError>(ConnectError::InvalidInput),
    {
        let v = parse_hex_u16(vid);
        let p = parse_hex_u16(pid);
        let u = parse_hex_u16(usage);
        match (v, p, u) {
            (Some(vendor_id), Some(product_id), Some(usage_page)) => Ok(
                ConnectionParams { vendor_id, product_id, usage_page },
            ),
            _ => Err(ConnectError::InvalidInput),
        }
    }
}

/// The connection lifecycle. Input is awaited, validated into parameters, and
/// consumed by one session-open attempt; on success the session carries the
/// capability mirror that discovery populated. Failure is terminal only until
/// the operator re-submits input.
#[derive(Clone, Copy, PartialEq, Eq, Debug)]
pub enum SessionState {
    /// Waiting for the operator to submit the three connection fields.
    AwaitingInput,
    /// Fields validated; a session open with these parameters is in flight.
    Connecting(ConnectionParams),
    /// Session established, with the mirror built by capability discovery.
    Connected(CapabilityMirror),
    /// A connection attempt failed; the operator may retry with new input.
    Failed(ConnectError),
}

impl SessionState {
    /// States in which a new submission of the connection fields is taken.
    pub open spec fn spec_accepts_input(self) -> bool {
        self is AwaitingInput || self is Failed
    }

    /// A fresh lifecycle: nothing submitted yet.
    pub fn new() -> (s: Self)
        ensures
            s == SessionState::AwaitingInput,
    {
        SessionState::AwaitingInput
    }

    /// Whether a new submission of the connection fields is taken.
    pub fn accepts_input(&self) -> (r: bool)
        ensures
            r == self.spec_accepts_input(),
    {
        match *self {
            SessionState::AwaitingInput => true,
            SessionState::Failed(_) => true,
            _ => false,
        }
    }

    /// Submit the three connection fields. If all three parse, the lifecycle
    /// moves to `Connecting` and hands out the parameters for the one
    /// session-open attempt. If any fails to parse, the submission is
    /// reported as `InvalidInput`, the lifecycle stays at `AwaitingInput`,
    /// and no parameters exist that a device call could be made with.
    pub fn submit_input(&mut self, vid: &str, pid: &str, usage: &str) -> (r: Result<
        ConnectionParams,
        ConnectError,
    >)
        requires
            old(self).spec_accepts_input(),
        ensures
            r is Ok <==> spec_fields_valid(vid@, pid@, usage@),
            r matches Ok(p) ==> p == spec_params_of(vid@, pid@, usage@) && *final(self)
                == SessionState::Connecting(p),
            r is Err ==> r == Err::<ConnectionParams, ConnectError>(ConnectError::InvalidInput)
                && *final(self) == SessionState::AwaitingInput,
    {
        match ConnectionParams::parse(vid, pid, usage) {
            Ok(p) => {
                *self = SessionState::Connecting(p);
                Ok(p)
            },
            Err(e) => {
                *self = SessionState::AwaitingInput;
                Err(e)
            },
        }
    }

    /// The session open failed: device not present, wrong usage page or a
    /// permission error. The failure is reported and the lifecycle waits,
    /// retryable, for new input.
    pub fn open_failed(&mut self)
        requires
            *old(self) is Connecting,
        ensures
            *final(self) == SessionState::Failed(ConnectError::DeviceUnavailable),
    {
        *self = SessionState::Failed(ConnectError::DeviceUnavailable);
    }

    /// The session opened and capability discovery ran its single pass: the
    /// populated mirror is carried into the established session.
    pub fn complete_connection(&mut self, m: CapabilityMirror)
        requires
            *old(self) is Connecting,
        ensures
            *final(self) == SessionState::Connected(m),
    {
        *self = SessionState::Connected(m);
    }

    /// The session ends: the mirror is discarded, nothing persists, and
    /// input is awaited again.
    pub fn disconnect(&mut self)
        ensures
            *final(self) == SessionState::AwaitingInput,
    {
        *self = SessionState::AwaitingInput;
    }

    /// Whether a session is established.
    pub fn is_connected(&self) -> (r: bool)
        ensures
            r == (self is Connected),
    {
        match *self {
            SessionState::Connected(_) => true,
            _ => false,
        }
    }

    /// The parameters of the session-open attempt in flight, if one is.
    pub fn params(&self) -> (r: Option<ConnectionParams>)
        ensures
            self is Connecting ==> r == Some(self->Connecting_0),
            self !is Connecting ==> r is None,
    {
        match *self {
            SessionState::Connecting(p) => Some(p),
            _ => None,
        }
    }

    /// The capability mirror of the established session, if one is.
    pub fn mirror(&self) -> (r: Option<CapabilityMirror>)
        ensures
            self is Connected ==> r == Some(self->Connected_0),
            self !is Connected ==> r is None,
    {
        match *self {
            SessionState::Connected(m) => Some(m),
            _ => None,
        }
    }

    /// The reported failure, if the last attempt failed.
    pub fn error(&self) -> (r: Option<ConnectError>)
        ensures
            self is Failed ==> r == Some(self->Failed_0),
            self !is Failed ==> r is None,
    {
        match *self {
            SessionState::Failed(e) => Some(e),
            _ => None,
        }
    }

    /// Write-through dispatch of one edit gesture within the established
    /// session: the mirror is mutated first and the single device write to
    /// issue is reported; its outcome is never fed back.
    pub fn edit(&mut self, e: Edit) -> (w: Option<DeviceWrite>)
        requires
            *old(self) is Connected,
        ensures
            *final(self) == SessionState::Connected(mirror_after((*old(self))->Connected_0, e)),
            w == write_issued((*old(self))->Connected_0, e),
    {
        match *self {
            SessionState::Connected(m0) => {
                let mut m = m0;
                let w = m.apply_edit(e);
                *self = SessionState::Connected(m);
                w
            },
            _ => None,
        }
    }
}

} // verus!
