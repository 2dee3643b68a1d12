//! The wire protocol between the host and the agent running inside a guest:
//! the messages, and the length-prefixed frames they travel in.
pub mod guest_exec;

use vstd::prelude::*;
use std::collections::HashMap;
use crate::engine::error::prefixed;
use crate::util::bytes::{le32, le32_value, push_le32, read_le32};
use crate::util::ids::{is_v4, new_uuid, uuid_text, uuid_to_string};

verus! {

/// Agent protocol version.
pub const AGENT_PROTOCOL_VERSION: u32 = 2;

/// A message sent between host and guest agent.
#[derive(Debug)]
pub struct AgentMessage {
    /// Message id, used to pair requests with responses.
    pub id: u128,
    /// Protocol version.
    pub version: u32,
    /// The message payload.
    pub payload: AgentPayload,
}

impl AgentMessage {
    /// A message with a fresh random id and the current protocol version.
    pub fn new(payload: AgentPayload) -> (r: Self)
        ensures
            is_v4(r.id),
            r.version == AGENT_PROTOCOL_VERSION,
            r.payload == payload,
    {
        AgentMessage { id: new_uuid(), version: AGENT_PROTOCOL_VERSION, payload }
    }
}

/// Agent message payloads.
#[derive(Debug)]
pub enum AgentPayload {
    /// Guest agent announces itself.
    Handshake(HandshakeData),
    /// Host requests guest OS information.
    GetGuestInfo,
    /// Guest responds with OS information.
    GuestInfo(GuestInfoData),
    /// Host requests a script run inside the guest.
    RunScript(ScriptPayload),
    /// Guest responds with the script's result.
    ScriptResult(ScriptResultData),
    /// Host requests the guest's user accounts.
    ListUsers,
    /// Guest responds with its user accounts.
    UserList(Vec<GuestUser>),
    /// Host requests a new user account.
    CreateUser(CreateUserData),
    /// Host requests deletion of a user account.
    DeleteUser(String),
    /// Host requests a password change.
    UpdateUserPassword(UpdatePasswordData),
    /// Synchronise portal and guest user accounts.
    SyncUsers,
    /// Host pushes clipboard content to the guest.
    ClipboardSet(ClipboardData),
    /// Guest pushes clipboard content to the host.
    ClipboardGet(ClipboardData),
    /// Host requests the USB device list.
    GetUsbDevices,
    /// Guest responds with its USB devices.
    UsbDeviceList(Vec<UsbDevice>),
    /// Host requests guest health metrics.
    GetMetrics,
    /// Guest responds with metrics.
    Metrics(GuestMetrics),
    /// Generic error response.
    Error { code: u32, message: String },
}

/// Initial handshake sent by the guest agent.
#[derive(Debug)]
pub struct HandshakeData {
    pub agent_version: String,
    pub os_name: String,
    pub os_version: String,
    pub hostname: String,
}

/// Guest OS information.
#[derive(Debug)]
pub struct GuestInfoData {
    pub os_name: String,
    pub os_version: String,
    pub kernel_version: String,
    pub hostname: String,
    pub uptime_seconds: u64,
    pub logged_in_users: Vec<String>,
}

/// A script to run inside the guest OS.
#[derive(Debug)]
pub struct ScriptPayload {
    /// Interpreter: "powershell", "cmd", "bash", "sh", "python".
    pub interpreter: String,
    /// Source or command line of the script.
    pub script_body: String,
    /// Timeout in seconds.
    pub timeout_secs: u64,
    /// Working directory inside the guest.
    pub working_dir: Option<String>,
    /// Environment variables for the script.
    pub env_vars: Option<HashMap<String, String>>,
}

/// The outcome of a script run inside the guest OS.
#[derive(Debug)]
pub struct ScriptResultData {
    /// Exit code (0 = success).
    pub exit_code: i32,
    /// Captured standard output.
    pub stdout: String,
    /// Captured standard error.
    pub stderr: String,
    /// Duration in milliseconds.
    pub duration_ms: u64,
}

/// A user account inside the guest.
#[derive(Debug)]
pub struct GuestUser {
    /// Account name.
    pub username: String,
    /// Full or display name.
    pub full_name: String,
    /// Whether the account has administrator or root rights.
    pub is_admin: bool,
    /// Whether the account is disabled or locked.
    pub is_disabled: bool,
    /// ISO timestamp of the last login, when known.
    pub last_login: Option<String>,
}

/// Parameters for creating a guest user.
#[derive(Debug)]
pub struct CreateUserData {
    pub username: String,
    pub password: String,
    pub full_name: String,
    pub is_admin: bool,
}

/// Parameters for changing a guest user's password.
#[derive(Debug)]
pub struct UpdatePasswordData {
    pub username: String,
    pub new_password: String,
}

/// Clipboard content.
#[derive(Debug)]
pub struct ClipboardData {
    pub mime_type: String,
    pub content: String,
}

/// A USB device exposed inside the guest.
#[derive(Debug)]
pub struct UsbDevice {
    pub bus: u8,
    pub device: u8,
    pub vendor_id: u16,
    pub product_id: u16,
    pub manufacturer: Option<String>,
    pub product: Option<String>,
    pub serial: Option<String>,
}

/// Guest-side metrics reported by the agent.
#[derive(Debug, Clone, Copy, Default)]
pub struct GuestMetrics {
    /// IEEE-754 double bits of the guest CPU usage (0–100 %).
    pub cpu_percent_bits: u64,
    pub memory_used_bytes: u64,
    pub memory_total_bytes: u64,
    pub disk_read_bytes_sec: u64,
    pub disk_write_bytes_sec: u64,
}

/// Agent protocol errors.
#[derive(Debug)]
pub enum AgentError {
    InvalidFrame(String),
    Serialization(String),
    NotConnected(u128),
    Io(String),
    ExecError(String),
}

/// The text an agent error is shown as.
pub open spec fn agent_error_text(e: AgentError) -> Seq<char> {
    match e {
        AgentError::InvalidFrame(m) => "Invalid message frame: "@ + m@,
        AgentError::Serialization(m) => "Serialization error: "@ + m@,
        AgentError::NotConnected(id) => "Agent not connected to VM "@ + uuid_text(id),
        AgentError::Io(m) => "I/O error: "@ + m@,
        AgentError::ExecError(m) => "Script execution error: "@ + m@,
    }
}

impl AgentError {
    /// The text the error is shown as.
    pub fn to_string(&self) -> (r: String)
        ensures
            r@ == agent_error_text(*self),
    {
        match self {
            AgentError::InvalidFrame(m) => prefixed("Invalid message frame: ", m.as_str()),
            AgentError::Serialization(m) => prefixed("Serialization error: ", m.as_str()),
            AgentError::NotConnected(id) => {
                let t = uuid_to_string(*id);
                prefixed("Agent not connected to VM ", t.as_str())
            },
            AgentError::Io(m) => prefixed("I/O error: ", m.as_str()),
            AgentError::ExecError(m) => prefixed("Script execution error: ", m.as_str()),
        }
    }
}

/// The frame carrying `body`: its length as four little-endian bytes (the
/// length taken modulo 2^32), then the body.
pub open spec fn frame_of(body: Seq<u8>) -> Seq<u8> {
    le32((body.len() % 0x1_0000_0000) as u32) + body
}

/// The length a frame's header announces.
pub open spec fn announced_len(frame: Seq<u8>) -> int
    recommends
        frame.len() >= 4,
{
    le32_value(frame[0], frame[1], frame[2], frame[3]) as int
}

/// Wrap a serialised message in its frame.
pub fn frame_message(body: &[u8]) -> (r: Vec<u8>)
    ensures
        r@ == frame_of(body@),
{
    let n: u64 = body.len() as u64;
    let len: u32 = (n % 0x1_0000_0000) as u32;
    let mut r: Vec<u8> = Vec::new();
    push_le32(&mut r, len);
    let mut i: usize = 0;
    while i < body.len()
        invariant
            i <= body.len(),
            r@ == le32(len) + body@.subrange(0, i as int),
        decreases body.len() - i,
    {
        r.push(body[i]);
        i = i + 1;
        assert(body@.subrange(0, i as int) =~= body@.subrange(0, i - 1).push(body@[i - 1]));
        assert(r@ =~= le32(len) + body@.subrange(0, i as int));
    }
    assert(body@.subrange(0, body@.len() as int) =~= body@);
    r
}

/// The serialised message inside `frame`. A frame shorter than its
/// four-byte header, or shorter than the length the header announces, is
/// refused; bytes after the announced body are ignored.
pub fn unframe_message(frame: &[u8]) -> (r: Result<Vec<u8>, AgentError>)
    ensures
        frame@.len() < 4 ==> (r matches Err(AgentError::InvalidFrame(m)) && m@ == "Frame too short"@),
        frame@.len() >= 4 && frame@.len() < 4 + announced_len(frame@)
            ==> (r matches Err(AgentError::InvalidFrame(m)) && m@ == "Frame truncated"@),
        frame@.len() >= 4 && frame@.len() >= 4 + announced_len(frame@)
            ==> (r matches Ok(body) && body@ == frame@.subrange(4, 4 + announced_len(frame@))),
{
    if frame.len() < 4 {
        return Err(AgentError::InvalidFrame(String::from_str("Frame too short")));
    }
    let len = read_le32(frame[0], frame[1], frame[2], frame[3]);
    let total: u64 = 4 + len as u64;
    if (frame.len() as u64) < total {
        return Err(AgentError::InvalidFrame(String::from_str("Frame truncated")));
    }
    let end: usize = 4 + len as usize;
    let mut body: Vec<u8> = Vec::new();
    let mut i: usize = 4;
    while i < end
        invariant
            4 <= i <= end,
            end <= frame.len(),
            body@ == frame@.subrange(4, i as int),
        decreases end - i,
    {
        body.push(frame[i]);
        i = i + 1;
        assert(frame@.subrange(4, i as int) =~= frame@.subrange(4, i - 1).push(frame@[i - 1]));
    }
    Ok(body)
}

/// The little-endian header decodes to the value it encodes.
proof fn lemma_le32_round_trip(x: u32)
    ensures
        le32_value((x % 256) as u8, ((x / 256) % 256) as u8, ((x / 0x1_0000) % 256) as u8, (x / 0x100_0000) as u8) == x,
{
    assert(((((x / 0x100_0000) as u8) * 0x100_0000 + (((x / 0x1_0000) % 256) as u8) * 0x1_0000
        + (((x / 256) % 256) as u8) * 256 + ((x % 256) as u8)) as u32) == x) by (bit_vector);
}

/// Unframing a framed body gives the body back, for every body shorter than
/// 2^32 bytes.
pub proof fn law_frame_round_trip(body: Seq<u8>)
    requires
        body.len() < 0x1_0000_0000,
    ensures
        frame_of(body).len() >= 4,
        announced_len(frame_of(body)) == body.len(),
        frame_of(body).subrange(4, 4 + body.len() as int) == body,
{
    let x = body.len() as u32;
    lemma_le32_round_trip(x);
    assert(frame_of(body).subrange(4, 4 + body.len() as int) =~= body);
}

} // verus!
