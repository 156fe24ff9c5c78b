//! Backup payloads and the integrity-protected envelope around them.
//!
//! The envelope's integrity hash covers every field and the payload's JSON
//! bytes. Serialising the payload happens outside this library; the bytes
//! are handed in.

use vstd::prelude::*;
use vstd::bytes::{spec_u32_to_le_bytes, u32_to_le_bytes, spec_u64_to_le_bytes, u64_to_le_bytes};
use vstd::utf8::encode_utf8;
use crate::action::{ActionId, spec_action_id_str};
use crate::ids::{is_v4_uuid, random_uuid_bytes};
use crate::text::{lower_hex, spec_lower_hex, push_char};
use super::fingerprint::{Fingerprint, sha256, spec_frame, parts_view};
use super::registry::RegistryBackup;

verus! {

pub const BACKUP_CODEC_VERSION: u32 = 1;

#[derive(Debug, Clone, Copy, PartialEq, Eq)]
pub struct SleepLeaseBackup {
    pub owner_id: [u8; 16],
    pub keep_display_on: bool,
}

/// Every field Windows returns for the sticky-keys and filter-keys settings.
#[derive(Debug, Clone, Copy, PartialEq, Eq, Structural)]
pub struct KeyboardAccessibilitySettings {
    pub sticky_size: u32,
    pub sticky_flags: u32,
    pub filter_size: u32,
    pub filter_flags: u32,
    pub filter_wait_ms: u32,
    pub filter_delay_ms: u32,
    pub filter_repeat_ms: u32,
    pub filter_bounce_ms: u32,
}

pub open spec fn spec_keyboard_bytes(k: KeyboardAccessibilitySettings) -> Seq<u8> {
    spec_u32_to_le_bytes(k.sticky_size) + spec_u32_to_le_bytes(k.sticky_flags) + spec_u32_to_le_bytes(
        k.filter_size,
    ) + spec_u32_to_le_bytes(k.filter_flags) + spec_u32_to_le_bytes(k.filter_wait_ms) + spec_u32_to_le_bytes(
        k.filter_delay_ms,
    ) + spec_u32_to_le_bytes(k.filter_repeat_ms) + spec_u32_to_le_bytes(k.filter_bounce_ms)
}

fn append_u32(out: &mut Vec<u8>, value: u32)
    ensures
        final(out)@ == old(out)@ + spec_u32_to_le_bytes(value),
{
    let mut bytes = u32_to_le_bytes(value);
    out.append(&mut bytes);
}

impl KeyboardAccessibilitySettings {
    /// SHA-256 of the eight fields as little-endian 32-bit values, in order.
    pub fn fingerprint(self) -> (f: Fingerprint)
        ensures
            f.0@ == sha256(spec_keyboard_bytes(self)),
    {
        let mut bytes: Vec<u8> = Vec::new();
        append_u32(&mut bytes, self.sticky_size);
        append_u32(&mut bytes, self.sticky_flags);
        append_u32(&mut bytes, self.filter_size);
        append_u32(&mut bytes, self.filter_flags);
        append_u32(&mut bytes, self.filter_wait_ms);
        append_u32(&mut bytes, self.filter_delay_ms);
        append_u32(&mut bytes, self.filter_repeat_ms);
        append_u32(&mut bytes, self.filter_bounce_ms);
        assert(bytes@ =~= spec_keyboard_bytes(self));
        Fingerprint::of_bytes(bytes.as_slice())
    }
}

#[derive(Debug, Clone, Copy, PartialEq, Eq, Structural)]
pub struct ShiftInterruptionGuardBackup {
    pub original: KeyboardAccessibilitySettings,
    pub intended: KeyboardAccessibilitySettings,
}

#[derive(Debug, Clone)]
pub struct ObservationBackup {
    pub source: String,
}

/// The three built-in power schemes.
#[derive(Debug, Clone, Copy, PartialEq, Eq, Structural)]
pub enum PowerScheme {
    Balanced,
    PowerSaver,
    HighPerformance,
}

/// The three power-mode overlays.
#[derive(Debug, Clone, Copy, PartialEq, Eq, Structural)]
pub enum PowerModeChoice {
    BestEfficiency,
    Balanced,
    BestPerformance,
}

/// A Windows GUID in its four-field layout.
#[derive(Debug, Clone, Copy, PartialEq, Eq)]
pub struct PowerSchemeGuid {
    pub data1: u32,
    pub data2: u16,
    pub data3: u16,
    pub data4: [u8; 8],
}

pub open spec fn spec_scheme_guid(scheme: PowerScheme) -> (u32, u16, u16, Seq<u8>) {
    match scheme {
        PowerScheme::Balanced => (0x381b4222, 0xf694, 0x41f0, seq![0x96u8, 0x85, 0xff, 0x5b, 0xb2, 0x60, 0xdf, 0x2e]),
        PowerScheme::PowerSaver => (0xa1841308, 0x3541, 0x4fab, seq![0xbcu8, 0x81, 0xf7, 0x15, 0x56, 0xf2, 0x0b, 0x4a]),
        PowerScheme::HighPerformance => (0x8c5e7fda, 0xe8bf, 0x4a96, seq![0x9au8, 0x85, 0xa6, 0xe2, 0x3a, 0x8c, 0x63, 0x5c]),
    }
}

pub open spec fn guid_parts(g: PowerSchemeGuid) -> (u32, u16, u16, Seq<u8>) {
    (g.data1, g.data2, g.data3, g.data4@)
}

/// Big-endian bytes of a 32-bit value.
pub open spec fn be32(x: u32) -> Seq<u8> {
    seq![(x / 16777216) as u8, ((x / 65536) % 256) as u8, ((x / 256) % 256) as u8, (x % 256) as u8]
}

/// Big-endian bytes of a 16-bit value.
pub open spec fn be16(x: u16) -> Seq<u8> {
    seq![(x / 256) as u8, (x % 256) as u8]
}

/// The registry form of a GUID: `{xxxxxxxx-xxxx-xxxx-xxxx-xxxxxxxxxxxx}`, lower case.
pub open spec fn spec_canonical_guid(g: PowerSchemeGuid) -> Seq<char> {
    seq!['{'] + spec_lower_hex(be32(g.data1)) + seq!['-'] + spec_lower_hex(be16(g.data2)) + seq!['-']
        + spec_lower_hex(be16(g.data3)) + seq!['-'] + spec_lower_hex(g.data4@.subrange(0, 2)) + seq!['-']
        + spec_lower_hex(g.data4@.subrange(2, 8)) + seq!['}']
}

fn be32_bytes(x: u32) -> (r: Vec<u8>)
    ensures
        r@ == be32(x),
{
    let a = (x >> 24) as u8;
    let b = ((x >> 16) & 0xff) as u8;
    let c = ((x >> 8) & 0xff) as u8;
    let d = (x & 0xff) as u8;
    assert(a == x / 16777216 && b == (x / 65536) % 256 && c == (x / 256) % 256 && d == x % 256) by (bit_vector)
        requires
            a == (x >> 24) as u8,
            b == ((x >> 16) & 0xff) as u8,
            c == ((x >> 8) & 0xff) as u8,
            d == (x & 0xff) as u8,
    ;
    let mut v: Vec<u8> = Vec::new();
    v.push(a);
    v.push(b);
    v.push(c);
    v.push(d);
    assert(v@ =~= be32(x));
    v
}

fn be16_bytes(x: u16) -> (r: Vec<u8>)
    ensures
        r@ == be16(x),
{
    let a = (x >> 8) as u8;
    let b = (x & 0xff) as u8;
    assert(a == x / 256 && b == x % 256) by (bit_vector)
        requires
            a == (x >> 8) as u8,
            b == (x & 0xff) as u8,
    ;
    let mut v: Vec<u8> = Vec::new();
    v.push(a);
    v.push(b);
    assert(v@ =~= be16(x));
    v
}

fn append_string(out: &mut String, s: String)
    ensures
        final(out)@ == old(out)@ + s@,
{
    out.append(s.as_str());
}

impl PowerSchemeGuid {
    /// The GUID of a built-in power scheme.
    pub fn for_scheme(scheme: PowerScheme) -> (g: PowerSchemeGuid)
        ensures
            guid_parts(g) == spec_scheme_guid(scheme),
    {
        let g = match scheme {
            PowerScheme::Balanced => PowerSchemeGuid {
                data1: 0x381b4222,
                data2: 0xf694,
                data3: 0x41f0,
                data4: [0x96, 0x85, 0xff, 0x5b, 0xb2, 0x60, 0xdf, 0x2e],
            },
            PowerScheme::PowerSaver => PowerSchemeGuid {
                data1: 0xa1841308,
                data2: 0x3541,
                data3: 0x4fab,
                data4: [0xbc, 0x81, 0xf7, 0x15, 0x56, 0xf2, 0x0b, 0x4a],
            },
            PowerScheme::HighPerformance => PowerSchemeGuid {
                data1: 0x8c5e7fda,
                data2: 0xe8bf,
                data3: 0x4a96,
                data4: [0x9a, 0x85, 0xa6, 0xe2, 0x3a, 0x8c, 0x63, 0x5c],
            },
        };
        assert(g.data4@ =~= spec_scheme_guid(scheme).3);
        g
    }

    /// The braced, hyphenated, lower-case text form of the GUID.
    pub fn canonical_string(self) -> (s: String)
        ensures
            s@ == spec_canonical_guid(self),
    {
        let mut out = String::new();
        push_char(&mut out, '{');
        append_string(&mut out, lower_hex(be32_bytes(self.data1).as_slice()));
        push_char(&mut out, '-');
        append_string(&mut out, lower_hex(be16_bytes(self.data2).as_slice()));
        push_char(&mut out, '-');
        append_string(&mut out, lower_hex(be16_bytes(self.data3).as_slice()));
        push_char(&mut out, '-');
        let head: [u8; 2] = [self.data4[0], self.data4[1]];
        assert(head@ =~= self.data4@.subrange(0, 2));
        append_string(&mut out, lower_hex(head.as_slice()));
        push_char(&mut out, '-');
        let tail: [u8; 6] = [
            self.data4[2],
            self.data4[3],
            self.data4[4],
            self.data4[5],
            self.data4[6],
            self.data4[7],
        ];
        assert(tail@ =~= self.data4@.subrange(2, 8));
        append_string(&mut out, lower_hex(tail.as_slice()));
        push_char(&mut out, '}');
        assert(out@ =~= spec_canonical_guid(self));
        out
    }
}

#[derive(Debug, Clone, Copy, PartialEq, Eq)]
pub struct PowerSchemeBackup {
    pub original_guid: PowerSchemeGuid,
    pub intended_scheme: PowerScheme,
    pub intended_guid: PowerSchemeGuid,
}

/// Registry values changed together. Restoration walks them in reverse.
#[derive(Debug, Clone)]
pub struct CompositeBackup {
    pub registry_entries: Vec<RegistryBackup>,
    pub all_or_stop: bool,
}

/// The power-mode overlays before the change, as raw GUID bytes: an overlay
/// this application does not know is kept exactly, never rounded.
#[derive(Debug, Clone, Copy, PartialEq, Eq)]
pub struct PowerModeBackup {
    pub original_ac: [u8; 16],
    pub original_dc: [u8; 16],
    pub intended: PowerModeChoice,
}

#[derive(Debug, Clone)]
pub enum BackupPayload {
    Registry(RegistryBackup),
    Composite(CompositeBackup),
    SleepLease(SleepLeaseBackup),
    Observation(ObservationBackup),
    PowerScheme(PowerSchemeBackup),
    ShiftInterruptionGuard(ShiftInterruptionGuardBackup),
    PowerMode(PowerModeBackup),
}

#[derive(Debug, Clone)]
pub struct BackupDraft {
    pub precondition_fingerprint: Fingerprint,
    pub intended_fingerprint: Fingerprint,
    pub payload: BackupPayload,
}

/// A backup as it is stored in the journal.
#[derive(Debug, Clone)]
pub struct BackupEnvelope {
    pub backup_id: [u8; 16],
    pub transaction_id: [u8; 16],
    pub item_id: [u8; 16],
    pub action_id: ActionId,
    pub action_version: u32,
    pub codec_version: u32,
    pub created_at_unix_ms: u64,
    pub os_build: u32,
    pub precondition_fingerprint: Fingerprint,
    pub intended_fingerprint: Fingerprint,
    pub applied_fingerprint: Option<Fingerprint>,
    pub rollback_across_unknown_build: bool,
    pub payload: BackupPayload,
    pub integrity_hash: Fingerprint,
}

/// The framed parts covered by the integrity hash, given the payload's JSON bytes.
pub open spec fn spec_integrity_parts(e: BackupEnvelope, payload_json: Seq<u8>) -> Seq<Seq<u8>> {
    seq![
        e.backup_id@,
        e.transaction_id@,
        e.item_id@,
        encode_utf8(spec_action_id_str(e.action_id)),
        spec_u32_to_le_bytes(e.action_version),
        spec_u32_to_le_bytes(e.codec_version),
        spec_u64_to_le_bytes(e.created_at_unix_ms),
        spec_u32_to_le_bytes(e.os_build),
        e.precondition_fingerprint.0@,
        e.intended_fingerprint.0@,
        seq![if e.applied_fingerprint is Some { 1u8 } else { 0u8 }],
        match e.applied_fingerprint {
            Some(f) => f.0@,
            None => Seq::new(32, |i: int| 0u8),
        },
        seq![if e.rollback_across_unknown_build { 1u8 } else { 0u8 }],
        payload_json,
    ]
}

pub open spec fn spec_integrity_hash(e: BackupEnvelope, payload_json: Seq<u8>) -> Seq<u8> {
    sha256(spec_frame(spec_integrity_parts(e, payload_json)))
}

/// A new envelope for the draft: the given IDs, Action, version, time and
/// build, the current codec version, the draft's fingerprints and payload,
/// nothing applied yet, and the integrity hash over all of it.
pub open spec fn sealed_from(
    e: BackupEnvelope,
    draft: BackupDraft,
    payload_json: Seq<u8>,
    transaction_id: [u8; 16],
    item_id: [u8; 16],
    action_id: ActionId,
    action_version: u32,
    created_at_unix_ms: u64,
    os_build: u32,
) -> bool {
    &&& e.transaction_id == transaction_id
    &&& e.item_id == item_id
    &&& e.action_id == action_id
    &&& e.action_version == action_version
    &&& e.codec_version == 1
    &&& e.created_at_unix_ms == created_at_unix_ms
    &&& e.os_build == os_build
    &&& e.precondition_fingerprint == draft.precondition_fingerprint
    &&& e.intended_fingerprint == draft.intended_fingerprint
    &&& e.applied_fingerprint is None
    &&& !e.rollback_across_unknown_build
    &&& e.payload == draft.payload
    &&& e.integrity_hash.0@ == spec_integrity_hash(e, payload_json)
}

impl BackupEnvelope {
    /// Wraps a draft under the given backup ID, with no applied fingerprint,
    /// the current codec version, and the integrity hash over everything.
    /// `payload_json` is the JSON encoding of `draft.payload`.
    pub fn seal(
        draft: BackupDraft,
        payload_json: &[u8],
        backup_id: [u8; 16],
        transaction_id: [u8; 16],
        item_id: [u8; 16],
        action_id: ActionId,
        action_version: u32,
        created_at_unix_ms: u64,
        os_build: u32,
    ) -> (e: BackupEnvelope)
        ensures
            e.backup_id == backup_id,
            sealed_from(
                e,
                draft,
                payload_json@,
                transaction_id,
                item_id,
                action_id,
                action_version,
                created_at_unix_ms,
                os_build,
            ),
    {
        let mut envelope = BackupEnvelope {
            backup_id,
            transaction_id,
            item_id,
            action_id,
            action_version,
            codec_version: BACKUP_CODEC_VERSION,
            created_at_unix_ms,
            os_build,
            precondition_fingerprint: draft.precondition_fingerprint,
            intended_fingerprint: draft.intended_fingerprint,
            applied_fingerprint: None,
            rollback_across_unknown_build: false,
            payload: draft.payload,
            integrity_hash: Fingerprint([0u8; 32]),
        };
        envelope.integrity_hash = envelope.calculate_integrity_hash(payload_json);
        envelope
    }

    /// Seals a draft under a fresh random version-4 backup ID; `None` when
    /// the random source fails.
    pub fn from_draft(
        draft: BackupDraft,
        payload_json: &[u8],
        transaction_id: [u8; 16],
        item_id: [u8; 16],
        action_id: ActionId,
        action_version: u32,
        created_at_unix_ms: u64,
        os_build: u32,
    ) -> (r: Option<BackupEnvelope>)
        ensures
            r matches Some(e) ==> is_v4_uuid(e.backup_id) && sealed_from(
                e,
                draft,
                payload_json@,
                transaction_id,
                item_id,
                action_id,
                action_version,
                created_at_unix_ms,
                os_build,
            ),
    {
        match random_uuid_bytes() {
            Some(backup_id) => Some(
                Self::seal(
                    draft,
                    payload_json,
                    backup_id,
                    transaction_id,
                    item_id,
                    action_id,
                    action_version,
                    created_at_unix_ms,
                    os_build,
                ),
            ),
            None => None,
        }
    }

    /// Records the fingerprint read back after applying, and re-seals.
    pub fn record_applied(&mut self, fingerprint: Fingerprint, payload_json: &[u8])
        ensures
            final(self).applied_fingerprint == Some(fingerprint),
            final(self).integrity_hash.0@ == spec_integrity_hash(*final(self), payload_json@),
            final(self).backup_id == old(self).backup_id,
            final(self).transaction_id == old(self).transaction_id,
            final(self).item_id == old(self).item_id,
            final(self).action_id == old(self).action_id,
            final(self).action_version == old(self).action_version,
            final(self).codec_version == old(self).codec_version,
            final(self).created_at_unix_ms == old(self).created_at_unix_ms,
            final(self).os_build == old(self).os_build,
            final(self).precondition_fingerprint == old(self).precondition_fingerprint,
            final(self).intended_fingerprint == old(self).intended_fingerprint,
            final(self).rollback_across_unknown_build == old(self).rollback_across_unknown_build,
            final(self).payload == old(self).payload,
    {
        self.applied_fingerprint = Some(fingerprint);
        self.integrity_hash = self.calculate_integrity_hash(payload_json);
    }

    /// Whether the stored hash matches the fields and the payload bytes.
    pub fn verify_integrity(&self, payload_json: &[u8]) -> (r: bool)
        ensures
            r == (self.integrity_hash.0@ == spec_integrity_hash(*self, payload_json@)),
    {
        let computed = self.calculate_integrity_hash(payload_json);
        let mut i: usize = 0;
        while i < 32
            invariant
                i <= 32,
                computed.0@ == spec_integrity_hash(*self, payload_json@),
                forall|k: int| 0 <= k < i ==> self.integrity_hash.0@[k] == computed.0@[k],
            decreases 32 - i,
        {
            if self.integrity_hash.0[i] != computed.0[i] {
                return false;
            }
            i = i + 1;
        }
        assert(self.integrity_hash.0@ =~= computed.0@);
        true
    }

    fn calculate_integrity_hash(&self, payload_json: &[u8]) -> (f: Fingerprint)
        ensures
            f.0@ == spec_integrity_hash(*self, payload_json@),
    {
        let applied_present: [u8; 1] = [if self.applied_fingerprint.is_some() {
            1
        } else {
            0
        }];
        let applied: [u8; 32] = match self.applied_fingerprint {
            Some(f) => f.0,
            None => [0u8; 32],
        };
        let rollback_across_unknown: [u8; 1] = [if self.rollback_across_unknown_build {
            1
        } else {
            0
        }];
        let action_version = u32_to_le_bytes(self.action_version);
        let codec_version = u32_to_le_bytes(self.codec_version);
        let created_at = u64_to_le_bytes(self.created_at_unix_ms);
        let os_build = u32_to_le_bytes(self.os_build);
        let mut parts: Vec<&[u8]> = Vec::new();
        parts.push(self.backup_id.as_slice());
        parts.push(self.transaction_id.as_slice());
        parts.push(self.item_id.as_slice());
        parts.push(self.action_id.as_str().as_bytes());
        parts.push(action_version.as_slice());
        parts.push(codec_version.as_slice());
        parts.push(created_at.as_slice());
        parts.push(os_build.as_slice());
        parts.push(self.precondition_fingerprint.0.as_slice());
        parts.push(self.intended_fingerprint.0.as_slice());
        parts.push(applied_present.as_slice());
        parts.push(applied.as_slice());
        parts.push(rollback_across_unknown.as_slice());
        parts.push(payload_json);
        assert(applied_present@ =~= seq![if self.applied_fingerprint is Some { 1u8 } else { 0u8 }]);
        assert(rollback_across_unknown@ =~= seq![if self.rollback_across_unknown_build { 1u8 } else { 0u8 }]);
        assert(applied@ =~= match self.applied_fingerprint {
            Some(f) => f.0@,
            None => Seq::new(32, |i: int| 0u8),
        });
        assert(parts_view(parts@) =~= spec_integrity_parts(*self, payload_json@));
        Fingerprint::of_parts(parts.as_slice())
    }
}

/// The integrity hash's input determines every covered field: two envelopes
/// (with their payload bytes) whose framed inputs coincide agree on IDs,
/// action, versions, creation time, build, fingerprints, the applied
/// fingerprint's presence, the unknown-build policy and the payload bytes.
/// So changing any of them changes what is hashed.
pub proof fn lemma_integrity_input_covers_fields(
    e1: BackupEnvelope,
    p1: Seq<u8>,
    e2: BackupEnvelope,
    p2: Seq<u8>,
)
    requires
        p1.len() <= u64::MAX,
        p2.len() <= u64::MAX,
        spec_frame(spec_integrity_parts(e1, p1)) == spec_frame(spec_integrity_parts(e2, p2)),
    ensures
        e1.backup_id@ == e2.backup_id@,
        e1.transaction_id@ == e2.transaction_id@,
        e1.item_id@ == e2.item_id@,
        spec_action_id_str(e1.action_id) == spec_action_id_str(e2.action_id),
        e1.action_version == e2.action_version,
        e1.codec_version == e2.codec_version,
        e1.created_at_unix_ms == e2.created_at_unix_ms,
        e1.os_build == e2.os_build,
        e1.precondition_fingerprint.0@ == e2.precondition_fingerprint.0@,
        e1.intended_fingerprint.0@ == e2.intended_fingerprint.0@,
        e1.applied_fingerprint is Some == e2.applied_fingerprint is Some,
        e1.rollback_across_unknown_build == e2.rollback_across_unknown_build,
        p1 == p2,
{
    let a = spec_integrity_parts(e1, p1);
    let b = spec_integrity_parts(e2, p2);
    vstd::bytes::lemma_auto_spec_u32_to_from_le_bytes();
    vstd::bytes::lemma_auto_spec_u64_to_from_le_bytes();
    vstd::utf8::encode_utf8_decode_utf8(spec_action_id_str(e1.action_id));
    vstd::utf8::encode_utf8_decode_utf8(spec_action_id_str(e2.action_id));
    assert(super::fingerprint::parts_in_range(a)) by {
        assert(forall|i: int| 0 <= i < a.len() ==> #[trigger] a[i].len() <= u64::MAX) by {
            assert(encode_utf8(spec_action_id_str(e1.action_id)).len() <= u64::MAX) by {
                reveal_strlit("explorer.show_extensions");
                reveal_strlit("power.active_scheme_check");
                reveal_strlit("setup.window_layout");
                reveal_strlit("theme.color_mode");
                vstd::utf8::is_ascii_chars_encode_utf8(spec_action_id_str(e1.action_id));
            }
        }
    }
    assert(super::fingerprint::parts_in_range(b)) by {
        assert(forall|i: int| 0 <= i < b.len() ==> #[trigger] b[i].len() <= u64::MAX) by {
            assert(encode_utf8(spec_action_id_str(e2.action_id)).len() <= u64::MAX) by {
                reveal_strlit("explorer.show_extensions");
                reveal_strlit("power.active_scheme_check");
                reveal_strlit("setup.window_layout");
                reveal_strlit("theme.color_mode");
                vstd::utf8::is_ascii_chars_encode_utf8(spec_action_id_str(e2.action_id));
            }
        }
    }
    super::fingerprint::lemma_framing_is_unambiguous(a, b);
    assert(a[3] == b[3]);
    assert(a[10] == b[10]);
    assert(a[10][0] == b[10][0]);
    assert(a[12][0] == b[12][0]);
    assert(spec_u32_to_le_bytes(e1.action_version).len() == 4);
    assert(spec_u32_to_le_bytes(e2.action_version).len() == 4);
    assert(spec_u32_to_le_bytes(e1.codec_version).len() == 4);
    assert(spec_u32_to_le_bytes(e2.codec_version).len() == 4);
    assert(spec_u32_to_le_bytes(e1.os_build).len() == 4);
    assert(spec_u32_to_le_bytes(e2.os_build).len() == 4);
    assert(spec_u64_to_le_bytes(e1.created_at_unix_ms).len() == 8);
    assert(spec_u64_to_le_bytes(e2.created_at_unix_ms).len() == 8);
    assert(vstd::bytes::spec_u32_from_le_bytes(a[4]) == vstd::bytes::spec_u32_from_le_bytes(b[4]));
    assert(vstd::bytes::spec_u32_from_le_bytes(a[5]) == vstd::bytes::spec_u32_from_le_bytes(b[5]));
    assert(vstd::bytes::spec_u64_from_le_bytes(a[6]) == vstd::bytes::spec_u64_from_le_bytes(b[6]));
    assert(vstd::bytes::spec_u32_from_le_bytes(a[7]) == vstd::bytes::spec_u32_from_le_bytes(b[7]));
}

} // verus!
