//! Identifiers: fresh random ones, and their textual form.

use vstd::prelude::*;
use crate::text::spec_lower_hex;
use crate::engine::token::os_random_bytes;

verus! {

/// Trusted: `uuid::Builder::from_random_bytes` followed by `into_uuid` and
/// `into_bytes`. The builder keeps every byte but two: it sets the version
/// nibble of byte 6 to 4 (random) and the top bits of byte 8 to the RFC 4122
/// variant `10`.
#[verifier::external_body]
fn v4_uuid_from_random_bytes(bytes: [u8; 16]) -> (r: [u8; 16])
    ensures
        r@ == bytes@.update(6, (bytes[6] & 0x0f) | 0x40).update(8, (bytes[8] & 0x3f) | 0x80),
{
    uuid::Builder::from_random_bytes(bytes).into_uuid().into_bytes()
}

/// Whether these bytes carry the version-4 and RFC 4122 variant bits.
pub open spec fn is_v4_uuid(b: [u8; 16]) -> bool {
    &&& b[6] & 0xf0 == 0x40
    &&& b[8] & 0xc0 == 0x80
}

/// A fresh random version-4 UUID, from the operating system's secure random
/// source; `None` when that source fails.
pub(crate) fn random_uuid_bytes() -> (r: Option<[u8; 16]>)
    ensures
        r matches Some(b) ==> is_v4_uuid(b),
{
    match os_random_bytes() {
        Some(pool) => {
            let bytes: [u8; 16] = [
                pool[0], pool[1], pool[2], pool[3], pool[4], pool[5], pool[6], pool[7],
                pool[8], pool[9], pool[10], pool[11], pool[12], pool[13], pool[14], pool[15],
            ];
            let b = v4_uuid_from_random_bytes(bytes);
            let b6 = bytes[6];
            let b8 = bytes[8];
            assert(((b6 & 0x0f) | 0x40) & 0xf0 == 0x40) by (bit_vector);
            assert(((b8 & 0x3f) | 0x80) & 0xc0 == 0x80) by (bit_vector);
            Some(b)
        },
        None => None,
    }
}

/// A fresh diagnostic ID: a random version-4 UUID, or the nil UUID (all
/// zero bytes) when the random source fails, so that reporting an error
/// never fails itself.
pub(crate) fn diagnostic_id() -> (r: [u8; 16])
    ensures
        is_v4_uuid(r) || forall|i: int| 0 <= i < 16 ==> r[i] == 0,
{
    match random_uuid_bytes() {
        Some(b) => b,
        None => [0u8; 16],
    }
}

/// Whether two 16-byte identifiers are equal.
pub fn same_id(a: &[u8; 16], b: &[u8; 16]) -> (r: bool)
    ensures
        r == (*a == *b),
        r == (a@ == b@),
{
    let mut i: usize = 0;
    while i < 16
        invariant
            i <= 16,
            forall|k: int| 0 <= k < i ==> a[k] == b[k],
        decreases 16 - i,
    {
        if a[i] != b[i] {
            assert(a@[i as int] != b@[i as int]);
            return false;
        }
        i = i + 1;
    }
    assert(*a =~= *b);
    assert(a@ =~= b@);
    true
}

/// The number whose big-endian bytes these are.
pub open spec fn be_value(b: Seq<u8>) -> nat
    decreases b.len(),
{
    if b.len() == 0 {
        0
    } else {
        be_value(b.drop_last()) * 256 + b.last() as nat
    }
}

pub open spec fn pow256(n: nat) -> nat
    decreases n,
{
    if n == 0 {
        1
    } else {
        pow256((n - 1) as nat) * 256
    }
}

proof fn lemma_pow256_monotone(i: nat, j: nat)
    requires
        i <= j,
    ensures
        pow256(i) <= pow256(j),
    decreases j,
{
    if i < j {
        lemma_pow256_monotone(i, (j - 1) as nat);
        assert(pow256(j) == pow256((j - 1) as nat) * 256);
        assert(pow256((j - 1) as nat) <= pow256((j - 1) as nat) * 256) by (nonlinear_arith);
    }
}

/// A UUID's 16 bytes as one 128-bit number, most significant byte first.
pub fn u128_from_be(bytes: [u8; 16]) -> (r: u128)
    ensures
        r as nat == be_value(bytes@),
{
    let mut acc: u128 = 0;
    let mut i: usize = 0;
    proof {
        reveal_with_fuel(pow256, 17);
        assert(pow256(16) == 0x1_0000_0000_0000_0000_0000_0000_0000_0000);
        assert(bytes@.take(0) =~= Seq::<u8>::empty());
    }
    while i < 16
        invariant
            i <= 16,
            bytes@.len() == 16,
            acc as nat == be_value(bytes@.take(i as int)),
            acc < pow256(i as nat),
            pow256(16) == 0x1_0000_0000_0000_0000_0000_0000_0000_0000,
        decreases 16 - i,
    {
        let b = bytes[i];
        proof {
            lemma_pow256_monotone((i + 1) as nat, 16);
            let p = pow256(i as nat);
            assert(pow256((i + 1) as nat) == p * 256);
            assert(acc * 256 + b < p * 256) by (nonlinear_arith)
                requires
                    acc < p,
                    b < 256,
            ;
            assert(bytes@.take(i + 1).drop_last() =~= bytes@.take(i as int));
        }
        acc = acc * 256 + b as u128;
        i = i + 1;
    }
    proof {
        assert(bytes@.take(16) =~= bytes@);
    }
    acc
}

/// The hyphenated lower-case form of a UUID: 8, 4, 4, 4 and 12 hexadecimal
/// digits separated by hyphens.
pub open spec fn spec_uuid_text(b: Seq<u8>) -> Seq<char> {
    spec_lower_hex(b.subrange(0, 4)) + "-"@ + spec_lower_hex(b.subrange(4, 6)) + "-"@
        + spec_lower_hex(b.subrange(6, 8)) + "-"@ + spec_lower_hex(b.subrange(8, 10)) + "-"@
        + spec_lower_hex(b.subrange(10, 16))
}

/// The textual form of a UUID, as stored in journals and profile files.
///
/// Trusted: calls `uuid::Uuid::to_string`, whose `Display` writes the
/// hyphenated lower-case form (8-4-4-4-12 hexadecimal digits) of the bytes.
#[verifier::external_body]
pub(crate) fn uuid_text(bytes: [u8; 16]) -> (s: String)
    ensures
        s@ == spec_uuid_text(bytes@),
{
    uuid::Uuid::from_bytes(bytes).to_string()
}

/// What `uuid::Uuid::parse_str` returns for a text: the 16 bytes it parsed,
/// or nothing where it refused the text.
pub uninterp spec fn uuid_parse(text: Seq<char>) -> Option<[u8; 16]>;

/// Parses a UUID in any of the forms the uuid crate accepts.
///
/// Trusted: calls `uuid::Uuid::parse_str`. Its result is named by
/// `uuid_parse`; the one fact stated besides is the crate's documented
/// promise that the hyphenated form it writes parses back to the same bytes.
#[verifier::external_body]
pub(crate) fn parse_uuid(text: &str) -> (r: Option<[u8; 16]>)
    ensures
        r == uuid_parse(text@),
        forall|b: [u8; 16]| text@ == spec_uuid_text(b@) ==> r == Some(b),
{
    match uuid::Uuid::parse_str(text) {
        Ok(id) => Some(*id.as_bytes()),
        Err(_) => None,
    }
}

} // verus!
