//! Fail-closed validation of elevated requests and of the connected peer.

use vstd::prelude::*;
use vstd::utf8::encode_utf8;
use vstd::string::StringSliceAdditionalSpecFns;
use crate::text::{lemma_lower_hex_index, lemma_lower_hex_len, spec_hex_digit, spec_lower_hex, text_eq};
use super::contract::{
    ElevatedRequestEnvelope, PeerEvidence, PeerExpectation, TypedActionParameters, TypedParameter,
    TypedParameterValue, ValidatedElevatedRequest, ValidatedPeer, IPC_PROTOCOL_VERSION,
    MAX_ACTION_ID_BYTES, MAX_CHOICE_BYTES, MAX_CLOCK_SKEW_MS, MAX_ENVELOPE_BYTES, MAX_PARAMETER_COUNT,
    MAX_PARAMETER_KEY_BYTES, MAX_PARAMETER_SCHEMA_BYTES, MAX_REQUEST_LIFETIME_MS, MAX_SID_BYTES,
};

verus! {

/// Decides whether an elevated action may run. The per-user edition uses
/// [`DenyAllElevatedActions`]; a helper build supplies its own allowlist.
pub trait ElevatedActionAllowlist {
    /// Whether this allowlist authorizes the Action with this ID, version
    /// and parameters.
    spec fn spec_authorizes(
        &self,
        action_id: Seq<char>,
        action_version: u32,
        parameters: TypedActionParameters,
    ) -> bool;

    fn authorizes(
        &self,
        action_id: &str,
        action_version: u32,
        parameters: &TypedActionParameters,
    ) -> (authorized: bool)
        ensures
            authorized == self.spec_authorizes(action_id@, action_version, *parameters),
    ;
}

/// The allowlist of the per-user edition: it authorizes nothing.
#[derive(Debug, Default, Clone, Copy)]
pub struct DenyAllElevatedActions;

impl ElevatedActionAllowlist for DenyAllElevatedActions {
    open spec fn spec_authorizes(
        &self,
        action_id: Seq<char>,
        action_version: u32,
        parameters: TypedActionParameters,
    ) -> bool {
        false
    }

    fn authorizes(
        &self,
        action_id: &str,
        action_version: u32,
        parameters: &TypedActionParameters,
    ) -> (authorized: bool)
        ensures
            !authorized,
    {
        false
    }
}

/// What the launching side knows about the request it expects.
pub struct RequestValidationContext<'a, A: ElevatedActionAllowlist> {
    pub expected_transaction_id: &'a str,
    pub expected_nonce: &'a [u8; 32],
    pub expected_message_counter: u64,
    pub now_unix_ms: i64,
    /// Request IDs already observed in this launch context.
    pub seen_request_ids: &'a [String],
    pub allowlist: &'a A,
}

#[derive(Debug, Clone, Copy, PartialEq, Eq, Structural)]
pub enum ValidationError {
    EmptyPayload,
    PayloadTooLarge,
    MalformedJson,
    UnsupportedProtocol,
    InvalidRequestId,
    InvalidTransactionId,
    TransactionMismatch,
    Replay,
    UnexpectedMessageCounter,
    InvalidTimeline,
    RequestNotYetValid,
    RequestExpired,
    RequestLifetimeTooLong,
    InvalidNonceEncoding,
    NonceMismatch,
    InvalidActionId,
    InvalidActionVersion,
    InvalidParameterSchema,
    InvalidParameter,
    ParameterLimitExceeded,
    ActionNotAllowlisted,
    InvalidPeerEvidence,
    PeerProcessMismatch,
    PeerCreationTimeMismatch,
    PeerSessionMismatch,
    PeerTokenMismatch,
    PeerIntegrityMismatch,
    PeerImageMismatch,
    PeerFileIdentityMismatch,
    PeerPublisherMismatch,
}

/// The operator-facing description of each error.
pub open spec fn spec_validation_message(e: ValidationError) -> Seq<char> {
    match e {
        ValidationError::EmptyPayload => "IPC payload is empty"@,
        ValidationError::PayloadTooLarge => "IPC payload exceeds the fixed limit"@,
        ValidationError::MalformedJson => "IPC payload does not match the strict schema"@,
        ValidationError::UnsupportedProtocol => "IPC protocol version is unsupported"@,
        ValidationError::InvalidRequestId => "request ID is not canonical"@,
        ValidationError::InvalidTransactionId => "transaction ID is not canonical"@,
        ValidationError::TransactionMismatch => "transaction ID does not match the prepared transaction"@,
        ValidationError::Replay => "request ID was already observed"@,
        ValidationError::UnexpectedMessageCounter => "message counter is out of sequence"@,
        ValidationError::InvalidTimeline => "request timestamps are inconsistent"@,
        ValidationError::RequestNotYetValid => "request issue time is too far in the future"@,
        ValidationError::RequestExpired => "request deadline has expired"@,
        ValidationError::RequestLifetimeTooLong => "request lifetime exceeds the fixed limit"@,
        ValidationError::InvalidNonceEncoding => "nonce encoding is invalid"@,
        ValidationError::NonceMismatch => "nonce does not match the one-shot launch context"@,
        ValidationError::InvalidActionId => "Action ID is invalid"@,
        ValidationError::InvalidActionVersion => "Action version is invalid"@,
        ValidationError::InvalidParameterSchema => "typed parameter schema is invalid"@,
        ValidationError::InvalidParameter => "typed parameter value is invalid"@,
        ValidationError::ParameterLimitExceeded => "typed parameter limit was exceeded"@,
        ValidationError::ActionNotAllowlisted => "Action is not present in the elevated allowlist"@,
        ValidationError::InvalidPeerEvidence => "peer evidence is incomplete"@,
        ValidationError::PeerProcessMismatch => "peer process ID does not match"@,
        ValidationError::PeerCreationTimeMismatch => "peer process creation time does not match"@,
        ValidationError::PeerSessionMismatch => "peer session does not match"@,
        ValidationError::PeerTokenMismatch => "peer token identity does not match"@,
        ValidationError::PeerIntegrityMismatch => "peer integrity or elevation does not match"@,
        ValidationError::PeerImageMismatch => "peer image identity does not match"@,
        ValidationError::PeerFileIdentityMismatch => "peer file identity does not match"@,
        ValidationError::PeerPublisherMismatch => "peer publisher identity does not match"@,
    }
}

impl ValidationError {
    /// The operator-facing description of the error.
    pub fn message(&self) -> (s: &'static str)
        ensures
            s@ == spec_validation_message(*self),
    {
        match self {
            ValidationError::EmptyPayload => "IPC payload is empty",
            ValidationError::PayloadTooLarge => "IPC payload exceeds the fixed limit",
            ValidationError::MalformedJson => "IPC payload does not match the strict schema",
            ValidationError::UnsupportedProtocol => "IPC protocol version is unsupported",
            ValidationError::InvalidRequestId => "request ID is not canonical",
            ValidationError::InvalidTransactionId => "transaction ID is not canonical",
            ValidationError::TransactionMismatch => "transaction ID does not match the prepared transaction",
            ValidationError::Replay => "request ID was already observed",
            ValidationError::UnexpectedMessageCounter => "message counter is out of sequence",
            ValidationError::InvalidTimeline => "request timestamps are inconsistent",
            ValidationError::RequestNotYetValid => "request issue time is too far in the future",
            ValidationError::RequestExpired => "request deadline has expired",
            ValidationError::RequestLifetimeTooLong => "request lifetime exceeds the fixed limit",
            ValidationError::InvalidNonceEncoding => "nonce encoding is invalid",
            ValidationError::NonceMismatch => "nonce does not match the one-shot launch context",
            ValidationError::InvalidActionId => "Action ID is invalid",
            ValidationError::InvalidActionVersion => "Action version is invalid",
            ValidationError::InvalidParameterSchema => "typed parameter schema is invalid",
            ValidationError::InvalidParameter => "typed parameter value is invalid",
            ValidationError::ParameterLimitExceeded => "typed parameter limit was exceeded",
            ValidationError::ActionNotAllowlisted => "Action is not present in the elevated allowlist",
            ValidationError::InvalidPeerEvidence => "peer evidence is incomplete",
            ValidationError::PeerProcessMismatch => "peer process ID does not match",
            ValidationError::PeerCreationTimeMismatch => "peer process creation time does not match",
            ValidationError::PeerSessionMismatch => "peer session does not match",
            ValidationError::PeerTokenMismatch => "peer token identity does not match",
            ValidationError::PeerIntegrityMismatch => "peer integrity or elevation does not match",
            ValidationError::PeerImageMismatch => "peer image identity does not match",
            ValidationError::PeerFileIdentityMismatch => "peer file identity does not match",
            ValidationError::PeerPublisherMismatch => "peer publisher identity does not match",
        }
    }
}

// ---------------------------------------------------------------------------
// Byte classes
// ---------------------------------------------------------------------------

pub open spec fn is_lower(b: u8) -> bool {
    97 <= b <= 122
}

pub open spec fn is_digit(b: u8) -> bool {
    48 <= b <= 57
}

pub open spec fn is_lower_hex_byte(b: u8) -> bool {
    is_digit(b) || (97 <= b <= 102)
}

/// The byte at `i` is acceptable in a dot-separated identifier: separators
/// never start, end or repeat, and digits never start a segment.
pub open spec fn namespaced_ok_at(s: Seq<u8>, i: int) -> bool {
    if s[i] == 46 {
        0 < i && i + 1 < s.len() && s[i - 1] != 46
    } else {
        is_lower(s[i]) || s[i] == 95 || (is_digit(s[i]) && 0 < i && s[i - 1] != 46)
    }
}

/// Two or more non-empty segments of `[a-z_][a-z0-9_]*` joined by dots.
pub open spec fn spec_namespaced(s: Seq<u8>) -> bool {
    &&& exists|i: int| 0 <= i < s.len() && s[i] == 46
    &&& forall|i: int| 0 <= i < s.len() ==> namespaced_ok_at(s, i)
}

/// 36 bytes, lower-case hexadecimal with hyphens at 8, 13, 18 and 23.
pub open spec fn spec_canonical_uuid(s: Seq<u8>) -> bool {
    &&& s.len() == 36
    &&& forall|i: int|
        0 <= i < 36 ==> (if i == 8 || i == 13 || i == 18 || i == 23 {
            s[i] == 45
        } else {
            is_lower_hex_byte(s[i])
        })
}

pub open spec fn spec_nibble(b: u8) -> int {
    if is_digit(b) {
        b - 48
    } else {
        b - 87
    }
}

/// The 32 bytes encoded by 64 lower-case hexadecimal characters, if they are that.
pub open spec fn spec_decode_nonce(s: Seq<u8>) -> Option<Seq<u8>> {
    if s.len() == 64 && forall|i: int| 0 <= i < 64 ==> is_lower_hex_byte(s[i]) {
        Some(Seq::new(32, |k: int| (spec_nibble(s[2 * k]) * 16 + spec_nibble(s[2 * k + 1])) as u8))
    } else {
        None
    }
}

/// A nonce written as lower-case hexadecimal, as `nonce_to_lower_hex`
/// writes it, decodes back to the same 32 bytes.
pub proof fn lemma_nonce_hex_round_trip(nonce: Seq<u8>)
    requires
        nonce.len() == 32,
    ensures
        spec_decode_nonce(encode_utf8(spec_lower_hex(nonce))) == Some(nonce),
{
    let text = spec_lower_hex(nonce);
    lemma_lower_hex_len(nonce);
    assert forall|i: int| 0 <= i < text.len() implies '\0' <= #[trigger] text[i] <= '\u{7f}' by {
        lemma_lower_hex_index(nonce, i / 2);
        assert(i == 2 * (i / 2) || i == 2 * (i / 2) + 1);
    }
    vstd::utf8::is_ascii_chars_encode_utf8(text);
    let bytes = encode_utf8(text);
    assert forall|i: int| 0 <= i < 64 implies is_lower_hex_byte(#[trigger] bytes[i]) by {
        lemma_lower_hex_index(nonce, i / 2);
        assert(i == 2 * (i / 2) || i == 2 * (i / 2) + 1);
    }
    let decoded = Seq::new(32, |k: int| (spec_nibble(bytes[2 * k]) * 16 + spec_nibble(bytes[2 * k + 1])) as u8);
    assert forall|k: int| 0 <= k < 32 implies decoded[k] == nonce[k] by {
        lemma_lower_hex_index(nonce, k);
        assert(spec_nibble(bytes[2 * k]) == nonce[k] as int / 16);
        assert(spec_nibble(bytes[2 * k + 1]) == nonce[k] as int % 16);
    }
    assert(decoded =~= nonce);
}

pub open spec fn spec_key_ok(k: Seq<u8>) -> bool {
    &&& 0 < k.len() <= 64
    &&& forall|i: int| 0 <= i < k.len() ==> (is_lower(k[i]) || k[i] == 95 || (0 < i && is_digit(k[i])))
}

pub open spec fn spec_choice_ok(c: Seq<u8>) -> bool {
    &&& 0 < c.len() <= 64
    &&& forall|i: int|
        0 <= i < c.len() ==> (is_lower(c[i]) || is_digit(c[i]) || c[i] == 95 || c[i] == 45 || c[i] == 46)
}

pub open spec fn spec_parameter_ok(p: TypedParameter) -> bool {
    &&& spec_key_ok(encode_utf8(p.name@))
    &&& (p.value matches TypedParameterValue::Choice(choice) ==> spec_choice_ok(encode_utf8(choice.value@)))
}

/// The outcome of checking typed parameters.
pub open spec fn spec_parameters_result(p: TypedActionParameters) -> Result<(), ValidationError> {
    let schema = encode_utf8(p.schema_id@);
    if p.schema_version == 0 || schema.len() > 64 || !spec_namespaced(schema) {
        Err(ValidationError::InvalidParameterSchema)
    } else if p.values.len() > 32 {
        Err(ValidationError::ParameterLimitExceeded)
    } else if (exists|i: int| 0 <= i < p.values.len() && !spec_parameter_ok(#[trigger] p.values@[i]))
        || (exists|i: int, j: int|
        0 <= i < j < p.values.len() && #[trigger] p.values@[i].name@ == #[trigger] p.values@[j].name@) {
        Err(ValidationError::InvalidParameter)
    } else {
        Ok(())
    }
}

// ---------------------------------------------------------------------------
// Byte-level checks
// ---------------------------------------------------------------------------

fn byte_is_lower(b: u8) -> (r: bool)
    ensures
        r == is_lower(b),
{
    97 <= b && b <= 122
}

fn byte_is_digit(b: u8) -> (r: bool)
    ensures
        r == is_digit(b),
{
    48 <= b && b <= 57
}

/// Whether the text is a dot-separated lower-case identifier.
pub fn is_namespaced_identifier(value: &str) -> (r: bool)
    ensures
        r == spec_namespaced(value.spec_bytes()),
{
    let bytes = value.as_bytes();
    let n = bytes.len();
    let mut saw_dot = false;
    let mut i: usize = 0;
    while i < n
        invariant
            n == bytes@.len(),
            bytes@ == value.spec_bytes(),
            i <= n,
            saw_dot == exists|k: int| 0 <= k < i && bytes@[k] == 46,
            forall|k: int| 0 <= k < i ==> namespaced_ok_at(bytes@, k),
        decreases n - i,
    {
        let b = bytes[i];
        let ok = if b == 46 {
            saw_dot = true;
            0 < i && i + 1 < n && bytes[i - 1] != 46
        } else {
            byte_is_lower(b) || b == 95 || (byte_is_digit(b) && 0 < i && bytes[i - 1] != 46)
        };
        if !ok {
            assert(!namespaced_ok_at(bytes@, i as int));
            return false;
        }
        i = i + 1;
    }
    saw_dot
}

/// Whether the text is a canonical lower-case hyphenated UUID.
pub fn is_canonical_uuid(value: &str) -> (r: bool)
    ensures
        r == spec_canonical_uuid(value.spec_bytes()),
{
    let bytes = value.as_bytes();
    if bytes.len() != 36 {
        return false;
    }
    let mut i: usize = 0;
    while i < 36
        invariant
            bytes@ == value.spec_bytes(),
            bytes@.len() == 36,
            i <= 36,
            forall|k: int|
                0 <= k < i ==> (if k == 8 || k == 13 || k == 18 || k == 23 {
                    bytes@[k] == 45
                } else {
                    is_lower_hex_byte(bytes@[k])
                }),
        decreases 36 - i,
    {
        let b = bytes[i];
        let ok = if i == 8 || i == 13 || i == 18 || i == 23 {
            b == 45
        } else {
            byte_is_digit(b) || (97 <= b && b <= 102)
        };
        if !ok {
            return false;
        }
        i = i + 1;
    }
    true
}

/// The value of one lower-case hexadecimal character.
pub fn lower_hex_nibble(byte: u8) -> (r: Result<u8, ValidationError>)
    ensures
        is_lower_hex_byte(byte) ==> r == Ok::<u8, ValidationError>(spec_nibble(byte) as u8),
        !is_lower_hex_byte(byte) ==> r == Err::<u8, ValidationError>(ValidationError::InvalidNonceEncoding),
{
    if 48 <= byte && byte <= 57 {
        Ok(byte - 48)
    } else if 97 <= byte && byte <= 102 {
        Ok(byte - 87)
    } else {
        Err(ValidationError::InvalidNonceEncoding)
    }
}

/// Decodes 64 lower-case hexadecimal characters into the 32-byte nonce.
pub fn decode_lower_hex_nonce(value: &str) -> (r: Result<[u8; 32], ValidationError>)
    ensures
        match spec_decode_nonce(value.spec_bytes()) {
            Some(decoded) => r matches Ok(d) && d@ == decoded,
            None => r == Err::<[u8; 32], ValidationError>(ValidationError::InvalidNonceEncoding),
        },
{
    let bytes = value.as_bytes();
    if bytes.len() != 64 {
        return Err(ValidationError::InvalidNonceEncoding);
    }
    let mut decoded = [0u8; 32];
    let mut index: usize = 0;
    while index < 32
        invariant
            bytes@ == value.spec_bytes(),
            bytes@.len() == 64,
            index <= 32,
            forall|i: int| 0 <= i < 2 * index ==> is_lower_hex_byte(bytes@[i]),
            forall|k: int|
                0 <= k < index ==> decoded@[k] == (spec_nibble(bytes@[2 * k]) * 16 + spec_nibble(
                    bytes@[2 * k + 1],
                )) as u8,
        decreases 32 - index,
    {
        let high_byte = bytes[index * 2];
        let low_byte = bytes[index * 2 + 1];
        let high = match lower_hex_nibble(high_byte) {
            Ok(h) => h,
            Err(e) => {
                return Err(e);
            },
        };
        let low = match lower_hex_nibble(low_byte) {
            Ok(l) => l,
            Err(e) => {
                return Err(e);
            },
        };
        assert(high < 16 && low < 16);
        let combined = (high << 4) | low;
        assert(combined == high * 16 + low) by (bit_vector)
            requires
                high < 16,
                low < 16,
                combined == (high << 4) | low,
        ;
        decoded[index] = combined;
        index = index + 1;
    }
    assert(decoded@ =~= Seq::new(
        32,
        |k: int| (spec_nibble(bytes@[2 * k]) * 16 + spec_nibble(bytes@[2 * k + 1])) as u8,
    ));
    Ok(decoded)
}

/// Compares two byte strings without stopping at the first difference.
pub fn constant_time_equal(left: &[u8], right: &[u8]) -> (r: bool)
    ensures
        r == (left@ == right@),
{
    if left.len() != right.len() {
        return false;
    }
    let mut difference: u8 = 0;
    let mut i: usize = 0;
    while i < left.len()
        invariant
            left@.len() == right@.len(),
            i <= left@.len(),
            (difference == 0) == (forall|k: int| 0 <= k < i ==> left@[k] == right@[k]),
        decreases left@.len() - i,
    {
        let a = left[i];
        let b = right[i];
        let next = difference | (a ^ b);
        assert((next == 0) == (difference == 0 && a == b)) by (bit_vector)
            requires
                next == difference | (a ^ b),
        ;
        difference = next;
        i = i + 1;
    }
    if difference == 0 {
        assert(left@ =~= right@);
    }
    difference == 0
}

/// A security identifier blob of a plausible length.
pub fn is_valid_sid_blob(sid: &[u8]) -> (r: bool)
    ensures
        r == (8 <= sid@.len() <= 68),
{
    8 <= sid.len() && sid.len() <= MAX_SID_BYTES
}

/// The action ID must be a short dot-separated identifier.
pub fn validate_action_id(value: &str) -> (r: Result<(), ValidationError>)
    ensures
        r == (if value.spec_bytes().len() > 64 || !spec_namespaced(value.spec_bytes()) {
            Err::<(), ValidationError>(ValidationError::InvalidActionId)
        } else {
            Ok(())
        }),
{
    if value.as_bytes().len() > MAX_ACTION_ID_BYTES || !is_namespaced_identifier(value) {
        return Err(ValidationError::InvalidActionId);
    }
    Ok(())
}

fn is_parameter_key(key: &str) -> (r: bool)
    ensures
        r == spec_key_ok(key.spec_bytes()),
{
    let bytes = key.as_bytes();
    let n = bytes.len();
    if n == 0 || n > MAX_PARAMETER_KEY_BYTES {
        return false;
    }
    let mut i: usize = 0;
    while i < n
        invariant
            bytes@ == key.spec_bytes(),
            n == bytes@.len(),
            i <= n,
            forall|k: int| 0 <= k < i ==> (is_lower(bytes@[k]) || bytes@[k] == 95 || (0 < k && is_digit(bytes@[k]))),
        decreases n - i,
    {
        let b = bytes[i];
        if !(byte_is_lower(b) || b == 95 || (0 < i && byte_is_digit(b))) {
            return false;
        }
        i = i + 1;
    }
    true
}

fn is_choice_value(choice: &str) -> (r: bool)
    ensures
        r == spec_choice_ok(choice.spec_bytes()),
{
    let bytes = choice.as_bytes();
    let n = bytes.len();
    if n == 0 || n > MAX_CHOICE_BYTES {
        return false;
    }
    let mut i: usize = 0;
    while i < n
        invariant
            bytes@ == choice.spec_bytes(),
            n == bytes@.len(),
            i <= n,
            forall|k: int|
                0 <= k < i ==> (is_lower(bytes@[k]) || is_digit(bytes@[k]) || bytes@[k] == 95
                    || bytes@[k] == 45 || bytes@[k] == 46),
        decreases n - i,
    {
        let b = bytes[i];
        if !(byte_is_lower(b) || byte_is_digit(b) || b == 95 || b == 45 || b == 46) {
            return false;
        }
        i = i + 1;
    }
    true
}

fn parameter_ok(parameter: &TypedParameter) -> (r: bool)
    ensures
        r == spec_parameter_ok(*parameter),
{
    if !is_parameter_key(parameter.name.as_str()) {
        return false;
    }
    match &parameter.value {
        TypedParameterValue::Choice(choice) => is_choice_value(choice.value.as_str()),
        _ => true,
    }
}

/// Checks the schema identifier, the parameter count, every key and choice,
/// and that no key repeats.
#[verifier::loop_isolation(false)]
pub fn validate_parameters(parameters: &TypedActionParameters) -> (r: Result<(), ValidationError>)
    ensures
        r == spec_parameters_result(*parameters),
{
    if parameters.schema_version == 0 || parameters.schema_id.as_str().as_bytes().len() > MAX_PARAMETER_SCHEMA_BYTES
        || !is_namespaced_identifier(parameters.schema_id.as_str()) {
        return Err(ValidationError::InvalidParameterSchema);
    }
    if parameters.values.len() > MAX_PARAMETER_COUNT {
        return Err(ValidationError::ParameterLimitExceeded);
    }
    let values = &parameters.values;
    let n = values.len();
    let mut i: usize = 0;
    while i < n
        invariant
            n == values@.len(),
            values@ == parameters.values@,
            i <= n,
            forall|k: int| 0 <= k < i ==> spec_parameter_ok(#[trigger] values@[k]),
            forall|a: int, b: int| 0 <= a < b < i ==> #[trigger] values@[a].name@ != #[trigger] values@[b].name@,
        decreases n - i,
    {
        if !parameter_ok(&values[i]) {
            assert(!spec_parameter_ok(parameters.values@[i as int]));
            assert(exists|k: int| 0 <= k < parameters.values.len() && !spec_parameter_ok(#[trigger] parameters.values@[k]));
            return Err(ValidationError::InvalidParameter);
        }
        let mut j: usize = 0;
        while j < i
            invariant
                n == values@.len(),
                i < n,
                j <= i,
                forall|a: int| 0 <= a < j ==> #[trigger] values@[a].name@ != values@[i as int].name@,
            decreases i - j,
        {
            if values[j].name == values[i].name {
                assert(parameters.values@[j as int].name@ == parameters.values@[i as int].name@);
                assert(exists|a: int, b: int|
                    0 <= a < b < parameters.values.len() && #[trigger] parameters.values@[a].name@ == #[trigger] parameters.values@[b].name@);
                return Err(ValidationError::InvalidParameter);
            }
            j = j + 1;
        }
        i = i + 1;
    }
    Ok(())
}

// ---------------------------------------------------------------------------
// Envelope
// ---------------------------------------------------------------------------

/// The first structural problem of an envelope, in the order the checks run.
pub open spec fn spec_envelope_error(
    envelope: ElevatedRequestEnvelope,
    expected_transaction_id: Seq<char>,
    expected_nonce: Seq<u8>,
    expected_message_counter: u64,
    now_unix_ms: i64,
    seen_request_ids: Seq<Seq<char>>,
) -> Option<ValidationError> {
    let lifetime = envelope.deadline_unix_ms - envelope.issued_at_unix_ms;
    let latest_issue_time = now_unix_ms + 5000;
    if envelope.protocol_version != 1 {
        Some(ValidationError::UnsupportedProtocol)
    } else if !spec_canonical_uuid(encode_utf8(envelope.request_id@)) {
        Some(ValidationError::InvalidRequestId)
    } else if !spec_canonical_uuid(encode_utf8(envelope.transaction_id@)) {
        Some(ValidationError::InvalidTransactionId)
    } else if envelope.transaction_id@ != expected_transaction_id {
        Some(ValidationError::TransactionMismatch)
    } else if seen_request_ids.contains(envelope.request_id@) {
        Some(ValidationError::Replay)
    } else if envelope.message_counter == 0 || envelope.message_counter != expected_message_counter {
        Some(ValidationError::UnexpectedMessageCounter)
    } else if lifetime < 0 || lifetime > i64::MAX {
        Some(ValidationError::InvalidTimeline)
    } else if lifetime > 30000 {
        Some(ValidationError::RequestLifetimeTooLong)
    } else if latest_issue_time > i64::MAX {
        Some(ValidationError::InvalidTimeline)
    } else if envelope.issued_at_unix_ms > latest_issue_time {
        Some(ValidationError::RequestNotYetValid)
    } else if envelope.deadline_unix_ms < now_unix_ms {
        Some(ValidationError::RequestExpired)
    } else if spec_decode_nonce(encode_utf8(envelope.nonce_hex@)) is None {
        Some(ValidationError::InvalidNonceEncoding)
    } else if spec_decode_nonce(encode_utf8(envelope.nonce_hex@)).unwrap() != expected_nonce {
        Some(ValidationError::NonceMismatch)
    } else if encode_utf8(envelope.action.action_id@).len() > 64 || !spec_namespaced(
        encode_utf8(envelope.action.action_id@),
    ) {
        Some(ValidationError::InvalidActionId)
    } else if envelope.action.action_version == 0 {
        Some(ValidationError::InvalidActionVersion)
    } else {
        match spec_parameters_result(envelope.action.parameters) {
            Err(e) => Some(e),
            Ok(_) => None,
        }
    }
}

/// The views of the request IDs already seen.
pub open spec fn seen_view(seen: Seq<String>) -> Seq<Seq<char>> {
    seen.map_values(|s: String| s@)
}

pub open spec fn context_envelope_error<A: ElevatedActionAllowlist>(
    envelope: ElevatedRequestEnvelope,
    context: RequestValidationContext<A>,
) -> Option<ValidationError> {
    spec_envelope_error(
        envelope,
        context.expected_transaction_id@,
        context.expected_nonce@,
        context.expected_message_counter,
        context.now_unix_ms,
        seen_view(context.seen_request_ids@),
    )
}

/// Whether the context's allowlist authorizes the envelope's Action.
pub open spec fn allowlisted<A: ElevatedActionAllowlist>(
    envelope: ElevatedRequestEnvelope,
    context: RequestValidationContext<A>,
) -> bool {
    context.allowlist.spec_authorizes(
        envelope.action.action_id@,
        envelope.action.action_version,
        envelope.action.parameters,
    )
}

/// What a structurally valid request comes to: handed on exactly when the
/// allowlist authorizes it.
pub open spec fn spec_allowlist_outcome<A: ElevatedActionAllowlist>(
    envelope: ElevatedRequestEnvelope,
    context: RequestValidationContext<A>,
) -> Result<ValidatedElevatedRequest, ValidationError> {
    if allowlisted(envelope, context) {
        Ok(spec_validated(envelope))
    } else {
        Err(ValidationError::ActionNotAllowlisted)
    }
}

/// The request handed on once every check and the allowlist have passed.
pub open spec fn spec_validated(envelope: ElevatedRequestEnvelope) -> ValidatedElevatedRequest {
    ValidatedElevatedRequest {
        request_id: envelope.request_id,
        transaction_id: envelope.transaction_id,
        message_counter: envelope.message_counter,
        action_id: envelope.action.action_id,
        action_version: envelope.action.action_version,
        parameters: envelope.action.parameters,
    }
}

fn was_seen(seen: &[String], request_id: &String) -> (r: bool)
    ensures
        r == seen_view(seen@).contains(request_id@),
{
    let mut i: usize = 0;
    while i < seen.len()
        invariant
            i <= seen@.len(),
            forall|k: int| 0 <= k < i ==> seen@[k]@ != request_id@,
        decreases seen@.len() - i,
    {
        if seen[i] == *request_id {
            assert(seen_view(seen@)[i as int] == request_id@);
            return true;
        }
        i = i + 1;
    }
    proof {
        if seen_view(seen@).contains(request_id@) {
            let k = choose|k: int| 0 <= k < seen_view(seen@).len() && seen_view(seen@)[k] == request_id@;
            assert(seen@[k]@ == request_id@);
        }
    }
    false
}

/// Runs every structural check of an envelope, stopping at the first failure.
pub fn check_envelope<A: ElevatedActionAllowlist>(
    envelope: &ElevatedRequestEnvelope,
    context: &RequestValidationContext<A>,
) -> (r: Result<(), ValidationError>)
    ensures
        match context_envelope_error(*envelope, *context) {
            Some(e) => r == Err::<(), ValidationError>(e),
            None => r == Ok::<(), ValidationError>(()),
        },
{
    if envelope.protocol_version != IPC_PROTOCOL_VERSION {
        return Err(ValidationError::UnsupportedProtocol);
    }
    if !is_canonical_uuid(envelope.request_id.as_str()) {
        return Err(ValidationError::InvalidRequestId);
    }
    if !is_canonical_uuid(envelope.transaction_id.as_str()) {
        return Err(ValidationError::InvalidTransactionId);
    }
    if !text_eq(envelope.transaction_id.as_str(), context.expected_transaction_id) {
        return Err(ValidationError::TransactionMismatch);
    }
    if was_seen(context.seen_request_ids, &envelope.request_id) {
        return Err(ValidationError::Replay);
    }
    if envelope.message_counter == 0 || envelope.message_counter != context.expected_message_counter {
        return Err(ValidationError::UnexpectedMessageCounter);
    }
    let lifetime = match envelope.deadline_unix_ms.checked_sub(envelope.issued_at_unix_ms) {
        Some(l) => l,
        None => {
            return Err(ValidationError::InvalidTimeline);
        },
    };
    if lifetime < 0 {
        return Err(ValidationError::InvalidTimeline);
    }
    if lifetime > MAX_REQUEST_LIFETIME_MS {
        return Err(ValidationError::RequestLifetimeTooLong);
    }
    let latest_issue_time = match context.now_unix_ms.checked_add(MAX_CLOCK_SKEW_MS) {
        Some(t) => t,
        None => {
            return Err(ValidationError::InvalidTimeline);
        },
    };
    if envelope.issued_at_unix_ms > latest_issue_time {
        return Err(ValidationError::RequestNotYetValid);
    }
    if envelope.deadline_unix_ms < context.now_unix_ms {
        return Err(ValidationError::RequestExpired);
    }
    let nonce = match decode_lower_hex_nonce(envelope.nonce_hex.as_str()) {
        Ok(n) => n,
        Err(e) => {
            return Err(e);
        },
    };
    if !constant_time_equal(nonce.as_slice(), context.expected_nonce.as_slice()) {
        return Err(ValidationError::NonceMismatch);
    }
    match validate_action_id(envelope.action.action_id.as_str()) {
        Ok(_) => {},
        Err(e) => {
            return Err(e);
        },
    }
    if envelope.action.action_version == 0 {
        return Err(ValidationError::InvalidActionVersion);
    }
    validate_parameters(&envelope.action.parameters)
}

/// Hands on a structurally valid request exactly when the allowlist authorized it.
pub fn finish_validation(envelope: ElevatedRequestEnvelope, authorized: bool) -> (r: Result<
    ValidatedElevatedRequest,
    ValidationError,
>)
    ensures
        authorized ==> r == Ok::<ValidatedElevatedRequest, ValidationError>(spec_validated(envelope)),
        !authorized ==> r == Err::<ValidatedElevatedRequest, ValidationError>(
            ValidationError::ActionNotAllowlisted,
        ),
{
    if !authorized {
        return Err(ValidationError::ActionNotAllowlisted);
    }
    Ok(ValidatedElevatedRequest {
        request_id: envelope.request_id,
        transaction_id: envelope.transaction_id,
        message_counter: envelope.message_counter,
        action_id: envelope.action.action_id,
        action_version: envelope.action.action_version,
        parameters: envelope.action.parameters,
    })
}

/// Validates a decoded envelope: every structural check in order, then the allowlist.
pub fn validate_envelope<A: ElevatedActionAllowlist>(
    envelope: ElevatedRequestEnvelope,
    context: &RequestValidationContext<A>,
) -> (r: Result<ValidatedElevatedRequest, ValidationError>)
    ensures
        context_envelope_error(envelope, *context) matches Some(e) ==> r == Err::<
            ValidatedElevatedRequest,
            ValidationError,
        >(e),
        context_envelope_error(envelope, *context) is None ==> r == spec_allowlist_outcome(
            envelope,
            *context,
        ),
{
    match check_envelope(&envelope, context) {
        Ok(_) => {},
        Err(e) => {
            return Err(e);
        },
    }
    let authorized = context.allowlist.authorizes(
        envelope.action.action_id.as_str(),
        envelope.action.action_version,
        &envelope.action.parameters,
    );
    finish_validation(envelope, authorized)
}

/// Validates raw request bytes. `decoded` is the strict JSON decoding of
/// `raw` (unknown or repeated fields give `None`); size limits are enforced
/// on the raw bytes before any decoded value is looked at.
pub fn validate_request_envelope<A: ElevatedActionAllowlist>(
    raw: &[u8],
    decoded: Option<ElevatedRequestEnvelope>,
    context: &RequestValidationContext<A>,
) -> (r: Result<ValidatedElevatedRequest, ValidationError>)
    ensures
        raw@.len() == 0 ==> r == Err::<ValidatedElevatedRequest, ValidationError>(
            ValidationError::EmptyPayload,
        ),
        raw@.len() > 65536 ==> r == Err::<ValidatedElevatedRequest, ValidationError>(
            ValidationError::PayloadTooLarge,
        ),
        0 < raw@.len() <= 65536 && decoded is None ==> r == Err::<
            ValidatedElevatedRequest,
            ValidationError,
        >(ValidationError::MalformedJson),
        (0 < raw@.len() <= 65536 && decoded is Some) ==> {
            let envelope = decoded.unwrap();
            &&& context_envelope_error(envelope, *context) matches Some(e) ==> r == Err::<
                ValidatedElevatedRequest,
                ValidationError,
            >(e)
            &&& context_envelope_error(envelope, *context) is None ==> r == spec_allowlist_outcome(
                envelope,
                *context,
            )
        },
{
    if raw.len() == 0 {
        return Err(ValidationError::EmptyPayload);
    }
    if raw.len() > MAX_ENVELOPE_BYTES {
        return Err(ValidationError::PayloadTooLarge);
    }
    match decoded {
        None => Err(ValidationError::MalformedJson),
        Some(envelope) => validate_envelope(envelope, context),
    }
}

// ---------------------------------------------------------------------------
// Peer
// ---------------------------------------------------------------------------

/// The first mismatch between the observed peer and the expected one.
pub open spec fn spec_peer_error(evidence: PeerEvidence, expected: PeerExpectation) -> Option<ValidationError> {
    let path = evidence.normalized_image_path@;
    if evidence.process_id == 0 || evidence.process_creation_time_100ns == 0
        || !(8 <= evidence.user_sid@.len() <= 68) || !(8 <= evidence.logon_sid@.len() <= 68)
        || path.len() == 0 || encode_utf8(path).len() > 32767 {
        Some(ValidationError::InvalidPeerEvidence)
    } else if evidence.process_id != expected.process_id {
        Some(ValidationError::PeerProcessMismatch)
    } else if evidence.process_creation_time_100ns != expected.process_creation_time_100ns {
        Some(ValidationError::PeerCreationTimeMismatch)
    } else if evidence.session_id != expected.session_id {
        Some(ValidationError::PeerSessionMismatch)
    } else if evidence.user_sid@ != expected.user_sid@ || evidence.logon_sid@ != expected.logon_sid@ {
        Some(ValidationError::PeerTokenMismatch)
    } else if evidence.integrity_level != expected.integrity_level || evidence.elevated != expected.elevated {
        Some(ValidationError::PeerIntegrityMismatch)
    } else if path != expected.normalized_image_path@ {
        Some(ValidationError::PeerImageMismatch)
    } else if evidence.file_identity.volume_serial_number != expected.file_identity.volume_serial_number
        || evidence.file_identity.file_id@ != expected.file_identity.file_id@ {
        Some(ValidationError::PeerFileIdentityMismatch)
    } else if evidence.publisher_sha256@ != expected.publisher_sha256@ {
        Some(ValidationError::PeerPublisherMismatch)
    } else {
        None
    }
}

/// Accepts the peer only when every observed identity fact matches the expectation.
pub fn validate_peer_evidence(evidence: &PeerEvidence, expected: &PeerExpectation) -> (r: Result<
    ValidatedPeer,
    ValidationError,
>)
    ensures
        spec_peer_error(*evidence, *expected) matches Some(e) ==> r == Err::<
            ValidatedPeer,
            ValidationError,
        >(e),
        spec_peer_error(*evidence, *expected) is None ==> r == Ok::<ValidatedPeer, ValidationError>(
            ValidatedPeer {
                process_id: evidence.process_id,
                process_creation_time_100ns: evidence.process_creation_time_100ns,
                session_id: evidence.session_id,
                integrity_level: evidence.integrity_level,
                elevated: evidence.elevated,
            },
        ),
{
    let path = evidence.normalized_image_path.as_str();
    if evidence.process_id == 0 || evidence.process_creation_time_100ns == 0
        || !is_valid_sid_blob(evidence.user_sid.as_slice())
        || !is_valid_sid_blob(evidence.logon_sid.as_slice()) || path.is_empty() || path.as_bytes().len() > 32767 {
        return Err(ValidationError::InvalidPeerEvidence);
    }
    if evidence.process_id != expected.process_id {
        return Err(ValidationError::PeerProcessMismatch);
    }
    if evidence.process_creation_time_100ns != expected.process_creation_time_100ns {
        return Err(ValidationError::PeerCreationTimeMismatch);
    }
    if evidence.session_id != expected.session_id {
        return Err(ValidationError::PeerSessionMismatch);
    }
    if !constant_time_equal(evidence.user_sid.as_slice(), expected.user_sid.as_slice())
        || !constant_time_equal(evidence.logon_sid.as_slice(), expected.logon_sid.as_slice()) {
        return Err(ValidationError::PeerTokenMismatch);
    }
    if evidence.integrity_level != expected.integrity_level || evidence.elevated != expected.elevated {
        return Err(ValidationError::PeerIntegrityMismatch);
    }
    if evidence.normalized_image_path != expected.normalized_image_path {
        return Err(ValidationError::PeerImageMismatch);
    }
    if evidence.file_identity.volume_serial_number != expected.file_identity.volume_serial_number
        || !constant_time_equal(
        evidence.file_identity.file_id.as_slice(),
        expected.file_identity.file_id.as_slice(),
    ) {
        return Err(ValidationError::PeerFileIdentityMismatch);
    }
    if !constant_time_equal(evidence.publisher_sha256.as_slice(), expected.publisher_sha256.as_slice()) {
        return Err(ValidationError::PeerPublisherMismatch);
    }
    Ok(ValidatedPeer {
        process_id: evidence.process_id,
        process_creation_time_100ns: evidence.process_creation_time_100ns,
        session_id: evidence.session_id,
        integrity_level: evidence.integrity_level,
        elevated: evidence.elevated,
    })
}

/// A parameter key is 1 to 64 bytes, each a lower-case ASCII letter, an
/// underscore, or, after the first byte, an ASCII digit: `[a-z_][a-z0-9_]*`.
pub proof fn lemma_parameter_key_grammar(k: Seq<u8>)
    ensures
        spec_key_ok(k) <==> 0 < k.len() <= 64 && forall|i: int|
            0 <= i < k.len() ==> ((97 <= #[trigger] k[i] <= 122) || k[i] == 95 || (0 < i && 48 <= k[i] <= 57)),
{
}

/// A choice value is 1 to 64 bytes of lower-case ASCII letters, digits,
/// `_`, `-` and `.`.
pub proof fn lemma_choice_grammar(c: Seq<u8>)
    ensures
        spec_choice_ok(c) <==> 0 < c.len() <= 64 && forall|i: int|
            0 <= i < c.len() ==> ((97 <= #[trigger] c[i] <= 122) || (48 <= c[i] <= 57) || c[i] == 95 || c[i] == 45
                || c[i] == 46),
{
}

/// A canonical UUID is 36 bytes: lower-case hexadecimal digits with a hyphen
/// at positions 8, 13, 18 and 23 and nowhere else; upper-case digits are
/// refused.
pub proof fn lemma_canonical_uuid_grammar(s: Seq<u8>)
    ensures
        spec_canonical_uuid(s) <==> s.len() == 36 && forall|i: int|
            0 <= i < 36 ==> (if i == 8 || i == 13 || i == 18 || i == 23 {
                #[trigger] s[i] == 45
            } else {
                (48 <= s[i] <= 57) || (97 <= s[i] <= 102)
            }),
{
}

/// A nonce is accepted only as exactly 64 lower-case hexadecimal digits,
/// each pair one byte, the high nibble first.
pub proof fn lemma_nonce_grammar(s: Seq<u8>, k: int)
    ensures
        spec_decode_nonce(s) is Some <==> s.len() == 64 && forall|i: int|
            0 <= i < 64 ==> (48 <= #[trigger] s[i] <= 57) || (97 <= s[i] <= 102),
        spec_decode_nonce(s) matches Some(n) ==> n.len() == 32 && (0 <= k < 32 ==> n[k] as int == (if s[2 * k]
            <= 57 {
            s[2 * k] - 48
        } else {
            s[2 * k] - 87
        }) * 16 + (if s[2 * k + 1] <= 57 {
            s[2 * k + 1] - 48
        } else {
            s[2 * k + 1] - 87
        })),
{
    if spec_decode_nonce(s) is Some && 0 <= k < 32 {
        assert(48 <= s[2 * k] <= 57 || 97 <= s[2 * k] <= 102);
        assert(48 <= s[2 * k + 1] <= 57 || 97 <= s[2 * k + 1] <= 102);
    }
}

/// An action or schema ID is two or more non-empty segments joined by dots;
/// a segment starts with a lower-case letter or `_` and goes on with those
/// or digits.
pub proof fn lemma_namespaced_grammar(s: Seq<u8>)
    ensures
        spec_namespaced(s) <==> (exists|i: int| 0 <= i < s.len() && s[i] == 46) && forall|i: int|
            0 <= i < s.len() ==> (if #[trigger] s[i] == 46 {
                0 < i && i + 1 < s.len() && s[i - 1] != 46
            } else {
                (97 <= s[i] <= 122) || s[i] == 95 || (48 <= s[i] <= 57 && 0 < i && s[i - 1] != 46)
            }),
{
    assert forall|i: int| 0 <= i < s.len() implies (namespaced_ok_at(s, i) <==> (if #[trigger] s[i] == 46 {
        0 < i && i + 1 < s.len() && s[i - 1] != 46
    } else {
        (97 <= s[i] <= 122) || s[i] == 95 || (48 <= s[i] <= 57 && 0 < i && s[i - 1] != 46)
    })) by {}
}

/// Typed parameters are accepted exactly when the schema is a dot-separated
/// ID of at most 64 bytes with a non-zero version, there are at most 32
/// values, every key and choice is well formed, and no key repeats.
pub proof fn lemma_parameters_accepted(p: TypedActionParameters)
    ensures
        spec_parameters_result(p) is Ok <==> {
            &&& p.schema_version != 0
            &&& encode_utf8(p.schema_id@).len() <= 64
            &&& spec_namespaced(encode_utf8(p.schema_id@))
            &&& p.values.len() <= 32
            &&& forall|i: int| 0 <= i < p.values.len() ==> spec_key_ok(encode_utf8((#[trigger] p.values@[i]).name@))
            &&& forall|i: int|
                0 <= i < p.values.len() ==> ((#[trigger] p.values@[i]).value matches TypedParameterValue::Choice(ch)
                    ==> spec_choice_ok(encode_utf8(ch.value@)))
            &&& forall|i: int, j: int|
                0 <= i < j < p.values.len() ==> (#[trigger] p.values@[i]).name@ != (#[trigger] p.values@[j]).name@
        },
{
    if spec_parameters_result(p) is Ok {
        assert forall|i: int| 0 <= i < p.values.len() implies spec_key_ok(encode_utf8((#[trigger] p.values@[i]).name@)) by {
            assert(spec_parameter_ok(p.values@[i]));
        }
    }
}

} // verus!
