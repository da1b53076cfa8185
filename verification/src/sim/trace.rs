//! Runtime control of the simulator host's optional FST trace backend.
//!
//! This describes a host capability rather than a simulator-independent
//! recording API: [`TraceError::Unavailable`] is a normal result when the
//! current simulator or executable was built without runtime trace support.
//! The host's control entry point is a C function found in the running
//! executable; the layer that finds and calls it issues the requests built
//! here and hands back the reply, which is decoded here.

use vstd::prelude::*;
use crate::text::{dec, push_dec};

verus! {

pub const ABI_VERSION: u32 = 1;
pub const COMMAND_STATUS: u32 = 0;
pub const COMMAND_START: u32 = 1;
pub const COMMAND_STOP: u32 = 2;
pub const COMMAND_FLUSH: u32 = 3;
/// Size of the error buffer handed to the host.
pub const ERROR_CAPACITY: usize = 512;

/// The status record the host fills in.
#[derive(Clone, Copy, Debug, Default, PartialEq, Eq, Structural)]
pub struct RawTraceStatus {
    pub abi_version: u32,
    pub capability: u32,
    pub state: u32,
    pub reserved: u32,
    pub start_time_steps: u64,
    pub end_time_steps: u64,
    pub dump_count: u64,
}

/// State reported by the trace host.
#[derive(Clone, Copy, Debug, Eq, PartialEq, Structural)]
pub enum TraceState {
    /// The executable has no FST instrumentation.
    Unavailable,
    /// FST instrumentation is present but no capture is active.
    Idle,
    /// A capture is currently accepting settled simulation values.
    Active,
}

/// Runtime trace status returned by the host.
#[derive(Clone, Copy, Debug, Eq, PartialEq, Structural)]
pub struct TraceStatus {
    pub state: TraceState,
    pub start_time_steps: u64,
    pub end_time_steps: u64,
    pub dump_count: u64,
}

/// Errors from the optional trace host.
#[derive(Clone, Debug, Eq, PartialEq)]
pub enum TraceError {
    Unavailable(String),
    InvalidPath(String),
    WrongState(String),
    Host(String),
}

/// The message of a trace error (what it displays as).
pub open spec fn trace_error_text(e: TraceError) -> Seq<char> {
    match e {
        TraceError::Unavailable(m) => m@,
        TraceError::InvalidPath(m) => m@,
        TraceError::WrongState(m) => m@,
        TraceError::Host(m) => m@,
    }
}

impl TraceError {
    /// The message of this error (what it displays as).
    pub fn message(&self) -> (r: String)
        ensures
            r@ == trace_error_text(*self),
    {
        match self {
            TraceError::Unavailable(m) => m.clone(),
            TraceError::InvalidPath(m) => m.clone(),
            TraceError::WrongState(m) => m.clone(),
            TraceError::Host(m) => m.clone(),
        }
    }
}

/// The state a raw status reports, or none for an invalid combination.
pub open spec fn spec_state(capability: u32, state: u32) -> Option<TraceState> {
    if capability == 0 {
        Some(TraceState::Unavailable)
    } else if capability == 1 && state == 0 {
        Some(TraceState::Idle)
    } else if capability == 1 && state == 1 {
        Some(TraceState::Active)
    } else {
        None
    }
}

pub open spec fn abi_message(found: u32) -> Seq<char> {
    "unsupported Verilator trace ABI "@ + dec(found as nat) + " (expected "@ + dec(
        ABI_VERSION as nat,
    ) + ")"@
}

pub open spec fn invalid_status_message(capability: u32, state: u32) -> Seq<char> {
    "invalid Verilator trace status capability="@ + dec(capability as nat) + " state="@ + dec(
        state as nat,
    )
}

/// `r` is the decoding of status record `raw`: a host error for a foreign
/// ABI version or an invalid capability/state pair, the status otherwise.
pub open spec fn decodes(raw: RawTraceStatus, r: Result<TraceStatus, TraceError>) -> bool {
    &&& raw.abi_version != ABI_VERSION ==> (r matches Err(TraceError::Host(m)) && m@ == abi_message(
        raw.abi_version,
    ))
    &&& raw.abi_version == ABI_VERSION && spec_state(raw.capability, raw.state) is None ==> (
    r matches Err(TraceError::Host(m)) && m@ == invalid_status_message(raw.capability, raw.state))
    &&& raw.abi_version == ABI_VERSION && spec_state(raw.capability, raw.state) is Some ==> r
        == Ok::<TraceStatus, TraceError>(
        TraceStatus {
            state: spec_state(raw.capability, raw.state)->0,
            start_time_steps: raw.start_time_steps,
            end_time_steps: raw.end_time_steps,
            dump_count: raw.dump_count,
        },
    )
}

/// Decode the status record the host filled in.
pub fn decode_status(raw: RawTraceStatus) -> (r: Result<TraceStatus, TraceError>)
    ensures
        decodes(raw, r),
{
    if raw.abi_version != ABI_VERSION {
        let mut m = String::new();
        m.append("unsupported Verilator trace ABI ");
        push_dec(&mut m, raw.abi_version as u64);
        m.append(" (expected ");
        push_dec(&mut m, ABI_VERSION as u64);
        m.append(")");
        return Err(TraceError::Host(m));
    }
    let state = if raw.capability == 0 {
        TraceState::Unavailable
    } else if raw.capability == 1 && raw.state == 0 {
        TraceState::Idle
    } else if raw.capability == 1 && raw.state == 1 {
        TraceState::Active
    } else {
        let mut m = String::new();
        m.append("invalid Verilator trace status capability=");
        push_dec(&mut m, raw.capability as u64);
        m.append(" state=");
        push_dec(&mut m, raw.state as u64);
        return Err(TraceError::Host(m));
    };
    Ok(
        TraceStatus {
            state,
            start_time_steps: raw.start_time_steps,
            end_time_steps: raw.end_time_steps,
            dump_count: raw.dump_count,
        },
    )
}

/// The text that `String::from_utf8_lossy` makes of `bytes`.
pub uninterp spec fn lossy_utf8(bytes: Seq<u8>) -> Seq<char>;

/// `String::from_utf8_lossy(bytes).into_owned()`: decodes UTF-8, putting
/// U+FFFD in place of each invalid sequence. Claimed: the result is the named
/// decoding of `bytes`, and it is empty exactly when `bytes` is.
#[verifier::external_body]
fn decode_lossy(bytes: &[u8]) -> (r: String)
    ensures
        r@ == lossy_utf8(bytes@),
        r@.len() == 0 <==> bytes@.len() == 0,
{
    String::from_utf8_lossy(bytes).into_owned()
}

/// A position `t` ends the C string in `b`: no NUL before it, and a NUL at
/// it unless it is the end of the buffer.
pub open spec fn is_terminator(b: Seq<u8>, t: int) -> bool {
    &&& 0 <= t <= b.len()
    &&& forall|j: int| 0 <= j < t ==> b[j] != 0
    &&& t < b.len() ==> b[t] == 0
}

/// Where the C string in `b` ends: its first NUL, or the end of the buffer.
pub open spec fn terminator(b: Seq<u8>) -> int {
    choose|t: int| is_terminator(b, t)
}

proof fn lemma_terminator_unique(b: Seq<u8>, t: int)
    requires
        is_terminator(b, t),
    ensures
        terminator(b) == t,
{
    let u = terminator(b);
    assert(is_terminator(b, u));
    if u < t {
        assert(b[u] != 0);
    } else if t < u {
        assert(b[t] != 0);
    }
}

pub open spec fn unspecified_error() -> Seq<char> {
    "Verilator trace host returned an unspecified error"@
}

/// A decoded host message, or the fixed text in place of an empty one.
pub open spec fn message_or_default_spec(m: Seq<char>) -> Seq<char> {
    if m.len() == 0 {
        unspecified_error()
    } else {
        m
    }
}

/// The message the host left in its error buffer.
pub open spec fn spec_error_message(b: Seq<u8>) -> Seq<char> {
    message_or_default_spec(lossy_utf8(b.take(terminator(b))))
}

/// The decoded host message, or the fixed text when the host left none.
pub fn message_or_default(decoded: String) -> (r: String)
    ensures
        r@ == message_or_default_spec(decoded@),
{
    if decoded.as_str().is_empty() {
        proof {
            reveal_strlit("Verilator trace host returned an unspecified error");
        }
        String::from_str("Verilator trace host returned an unspecified error")
    } else {
        decoded
    }
}

/// The message in the host's NUL-terminated error buffer, or a fixed text
/// when it is empty.
pub fn error_message(buffer: &[u8]) -> (r: String)
    ensures
        r@ == spec_error_message(buffer@),
{
    let mut t: usize = 0;
    while t < buffer.len() && buffer[t] != 0
        invariant
            t <= buffer@.len(),
            forall|j: int| 0 <= j < t ==> buffer@[j] != 0,
        decreases buffer@.len() - t,
    {
        t = t + 1;
    }
    proof {
        lemma_terminator_unique(buffer@, t as int);
    }
    let prefix = &buffer[0..t];
    assert(prefix@ == buffer@.take(t as int));
    message_or_default(decode_lossy(prefix))
}

/// A command for the host, with the capture path for a start.
#[derive(Clone, Debug, PartialEq, Eq)]
pub struct TraceRequest {
    pub command: u32,
    pub path: Option<Vec<u8>>,
}

/// What the host did with a request.
#[derive(Clone, Debug, PartialEq, Eq)]
pub enum HostReply {
    /// The running executable provides no trace control entry point.
    Missing,
    /// The host answered with `code`, a filled-in status and an error buffer.
    Returned { code: i32, raw: RawTraceStatus, error: Vec<u8> },
}

pub open spec fn missing_host_message() -> Seq<char> {
    "the current simulator host does not provide runtime FST tracing"@
}

/// Return the current runtime trace capability and state.
pub fn status() -> (r: TraceRequest)
    ensures
        r.command == COMMAND_STATUS && r.path is None,
{
    TraceRequest { command: COMMAND_STATUS, path: None }
}

/// Start capturing every traced signal into the file at `path` (its bytes);
/// a path with an interior NUL byte is rejected.
pub fn start(path: &[u8]) -> (r: Result<TraceRequest, TraceError>)
    ensures
        (exists|i: int| 0 <= i < path@.len() && path@[i] == 0) ==> (r matches Err(
            TraceError::InvalidPath(m),
        ) && m@ == "trace path contains an interior NUL byte"@),
        !(exists|i: int| 0 <= i < path@.len() && path@[i] == 0) ==> (r matches Ok(q) && q.command
            == COMMAND_START && (q.path matches Some(p) && p@ == path@)),
{
    let mut i: usize = 0;
    while i < path.len()
        invariant
            i <= path@.len(),
            forall|j: int| 0 <= j < i ==> path@[j] != 0,
        decreases path@.len() - i,
    {
        if path[i] == 0 {
            return Err(
                TraceError::InvalidPath(
                    String::from_str("trace path contains an interior NUL byte"),
                ),
            );
        }
        i = i + 1;
    }
    let mut bytes: Vec<u8> = Vec::new();
    let mut k: usize = 0;
    while k < path.len()
        invariant
            k <= path@.len(),
            bytes@ == path@.take(k as int),
        decreases path@.len() - k,
    {
        bytes.push(path[k]);
        k = k + 1;
        assert(bytes@ =~= path@.take(k as int));
    }
    assert(path@.take(path@.len() as int) =~= path@);
    Ok(TraceRequest { command: COMMAND_START, path: Some(bytes) })
}

/// Flush the active capture so its on-disk state can be inspected.
pub fn flush() -> (r: TraceRequest)
    ensures
        r.command == COMMAND_FLUSH && r.path is None,
{
    TraceRequest { command: COMMAND_FLUSH, path: None }
}

/// Stop and close the active capture at the current settled simulation time.
pub fn stop() -> (r: TraceRequest)
    ensures
        r.command == COMMAND_STOP && r.path is None,
{
    TraceRequest { command: COMMAND_STOP, path: None }
}

/// Decode the host's reply to a request.
pub fn control_reply(reply: HostReply) -> (r: Result<TraceStatus, TraceError>)
    ensures
        reply matches HostReply::Missing ==> (r matches Err(TraceError::Unavailable(m)) && m@
            == missing_host_message()),
        reply matches HostReply::Returned { code, raw, error } ==> {
            &&& code == 0 ==> decodes(raw, r)
            &&& code == 1 ==> (r matches Err(TraceError::Unavailable(m)) && m@ == spec_error_message(error@))
            &&& code == 3 ==> (r matches Err(TraceError::InvalidPath(m)) && m@ == spec_error_message(error@))
            &&& code == 4 ==> (r matches Err(TraceError::WrongState(m)) && m@ == spec_error_message(error@))
            &&& (code != 0 && code != 1 && code != 3 && code != 4) ==> (r matches Err(
                TraceError::Host(m),
            ) && m@ == spec_error_message(error@))
        },
{
    match reply {
        HostReply::Missing => Err(
            TraceError::Unavailable(
                String::from_str("the current simulator host does not provide runtime FST tracing"),
            ),
        ),
        HostReply::Returned { code, raw, error } => {
            let message = error_message(error.as_slice());
            match code {
                0 => decode_status(raw),
                1 => Err(TraceError::Unavailable(message)),
                3 => Err(TraceError::InvalidPath(message)),
                4 => Err(TraceError::WrongState(message)),
                _ => Err(TraceError::Host(message)),
            }
        },
    }
}

} // verus!
