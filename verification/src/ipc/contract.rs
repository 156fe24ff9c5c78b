//! Wire types of the elevated helper protocol.
//!
//! The per-user edition ships without an elevated helper; these types freeze
//! the narrow protocol the helper will speak. Evidence about the peer is
//! collected from handles by the transport, never taken from the request.

use vstd::prelude::*;
use crate::text::{lower_hex, spec_lower_hex};

verus! {

pub const IPC_PROTOCOL_VERSION: u16 = 1;
pub const MAX_ENVELOPE_BYTES: usize = 65536;
pub const MAX_ACTION_ID_BYTES: usize = 64;
pub const MAX_PARAMETER_SCHEMA_BYTES: usize = 64;
pub const MAX_PARAMETER_COUNT: usize = 32;
pub const MAX_PARAMETER_KEY_BYTES: usize = 64;
pub const MAX_CHOICE_BYTES: usize = 64;
pub const NONCE_BYTES: usize = 32;
pub const NONCE_HEX_BYTES: usize = 64;
pub const MAX_REQUEST_LIFETIME_MS: i64 = 30000;
pub const MAX_CLOCK_SKEW_MS: i64 = 5000;
pub const MAX_SID_BYTES: usize = 68;

/// A single request is served by a single, local-only pipe instance.
#[derive(Clone, Copy, PartialEq, Eq, Debug)]
pub struct OneShotNamedPipePolicy {
    pub first_pipe_instance: bool,
    pub reject_remote_clients: bool,
    pub max_instances: u8,
    pub message_mode: bool,
    pub explicit_dacl: bool,
    pub requesting_logon_sid_read_write: bool,
    pub administrators_full_control: bool,
    pub system_full_control: bool,
    pub mandatory_integrity: MandatoryIntegrity,
    pub mandatory_no_write_up: bool,
    pub mutual_peer_verification: bool,
}

#[derive(Clone, Copy, PartialEq, Eq, Debug)]
pub enum MandatoryIntegrity {
    Medium,
}

/// The only pipe policy the transport may use: every protection switched on,
/// exactly one instance, medium mandatory integrity.
pub open spec fn spec_one_shot_named_pipe_policy() -> OneShotNamedPipePolicy {
    OneShotNamedPipePolicy {
        first_pipe_instance: true,
        reject_remote_clients: true,
        max_instances: 1,
        message_mode: true,
        explicit_dacl: true,
        requesting_logon_sid_read_write: true,
        administrators_full_control: true,
        system_full_control: true,
        mandatory_integrity: MandatoryIntegrity::Medium,
        mandatory_no_write_up: true,
        mutual_peer_verification: true,
    }
}

/// The fixed pipe policy of the one-shot helper transport.
pub fn one_shot_named_pipe_policy() -> (policy: OneShotNamedPipePolicy)
    ensures
        policy == spec_one_shot_named_pipe_policy(),
{
    OneShotNamedPipePolicy {
        first_pipe_instance: true,
        reject_remote_clients: true,
        max_instances: 1,
        message_mode: true,
        explicit_dacl: true,
        requesting_logon_sid_read_write: true,
        administrators_full_control: true,
        system_full_control: true,
        mandatory_integrity: MandatoryIntegrity::Medium,
        mandatory_no_write_up: true,
        mutual_peer_verification: true,
    }
}

/// One request as it arrives on the wire, after strict JSON decoding.
#[derive(Clone)]
pub struct ElevatedRequestEnvelope {
    pub protocol_version: u16,
    pub request_id: String,
    pub transaction_id: String,
    pub message_counter: u64,
    pub issued_at_unix_ms: i64,
    pub deadline_unix_ms: i64,
    pub nonce_hex: String,
    pub action: ElevatedActionRequest,
}

#[derive(Clone)]
pub struct ElevatedActionRequest {
    pub action_id: String,
    pub action_version: u32,
    pub parameters: TypedActionParameters,
}

/// Typed parameters: never arbitrary JSON. An allowlisted action validates
/// the exact schema, keys, choices and ranges before dispatch.
#[derive(Clone, Debug, PartialEq, Eq)]
pub struct TypedActionParameters {
    pub schema_id: String,
    pub schema_version: u16,
    pub values: Vec<TypedParameter>,
}

#[derive(Clone, Debug, PartialEq, Eq)]
pub struct TypedParameter {
    pub name: String,
    pub value: TypedParameterValue,
}

#[derive(Clone, Debug, PartialEq, Eq)]
pub enum TypedParameterValue {
    Boolean(BooleanParameter),
    Unsigned(UnsignedParameter),
    Choice(ChoiceParameter),
}

#[derive(Clone, Debug, PartialEq, Eq)]
pub struct BooleanParameter {
    pub value: bool,
}

#[derive(Clone, Debug, PartialEq, Eq)]
pub struct UnsignedParameter {
    pub value: u64,
}

#[derive(Clone, Debug, PartialEq, Eq)]
pub struct ChoiceParameter {
    pub value: String,
}

/// Volume serial number and file ID of an executable, read from a handle.
#[derive(Clone)]
pub struct FileIdentity {
    pub volume_serial_number: u64,
    pub file_id: [u8; 16],
}

#[derive(Clone, Copy, PartialEq, Eq, Debug, Structural)]
pub enum IntegrityLevel {
    Medium,
    High,
    System,
}

/// What the transport observed about the connected peer.
#[derive(Clone)]
pub struct PeerEvidence {
    pub process_id: u32,
    pub process_creation_time_100ns: u64,
    pub session_id: u32,
    pub user_sid: Vec<u8>,
    pub logon_sid: Vec<u8>,
    pub integrity_level: IntegrityLevel,
    pub elevated: bool,
    pub normalized_image_path: String,
    pub file_identity: FileIdentity,
    pub publisher_sha256: [u8; 32],
}

/// What the launching side expects the peer to be.
#[derive(Clone)]
pub struct PeerExpectation {
    pub process_id: u32,
    pub process_creation_time_100ns: u64,
    pub session_id: u32,
    pub user_sid: Vec<u8>,
    pub logon_sid: Vec<u8>,
    pub integrity_level: IntegrityLevel,
    pub elevated: bool,
    pub normalized_image_path: String,
    pub file_identity: FileIdentity,
    pub publisher_sha256: [u8; 32],
}

#[derive(Clone, Debug, PartialEq, Eq)]
pub struct ValidatedElevatedRequest {
    pub request_id: String,
    pub transaction_id: String,
    pub message_counter: u64,
    pub action_id: String,
    pub action_version: u32,
    pub parameters: TypedActionParameters,
}

#[derive(Clone, Copy, Debug, PartialEq, Eq)]
pub struct ValidatedPeer {
    pub process_id: u32,
    pub process_creation_time_100ns: u64,
    pub session_id: u32,
    pub integrity_level: IntegrityLevel,
    pub elevated: bool,
}

/// Encodes a launch nonce as 64 lower-case hexadecimal characters.
pub fn nonce_to_lower_hex(nonce: &[u8; 32]) -> (encoded: String)
    ensures
        encoded@ == spec_lower_hex(nonce@),
        encoded@.len() == 64,
{
    proof {
        crate::text::lemma_lower_hex_len(nonce@);
    }
    lower_hex(nonce.as_slice())
}

} // verus!
