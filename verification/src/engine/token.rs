//! Preview tokens: 32 bytes from the operating system's secure random
//! source, written as lower-case hex.

use vstd::prelude::*;
use crate::error::{CoreError, CoreResult};
use crate::text::{lemma_lower_hex_len, lower_hex, spec_lower_hex};

verus! {

/// Trusted: `rand::RngCore::try_fill_bytes` on `rand::rngs::OsRng` fills
/// the buffer from the operating system's secure random source, or fails.
/// Nothing is promised of the bytes.
#[verifier::external_body]
pub(crate) fn os_random_bytes() -> Option<[u8; 32]> {
    let mut bytes = [0u8; 32];
    match rand::RngCore::try_fill_bytes(&mut rand::rngs::OsRng, &mut bytes) {
        Ok(()) => Some(bytes),
        Err(_) => None,
    }
}

/// A fresh preview token: 64 lower-case hex digits of 32 secure random
/// bytes, or an error when the random source fails.
pub fn random_token() -> (r: CoreResult<String>)
    ensures
        r matches Ok(token) ==> token@.len() == 64 && exists|bytes: Seq<u8>|
            bytes.len() == 32 && token@ == spec_lower_hex(bytes),
        r matches Err(e) ==> e.code@ == "RANDOM_SOURCE_FAILURE"@ && e.stage@ == "VALIDATE"@
            && !e.retryable && e.user_message@ == "安全なプレビューtokenを作成できませんでした。"@,
{
    match os_random_bytes() {
        Some(bytes) => {
            proof {
                lemma_lower_hex_len(bytes@);
            }
            Ok(lower_hex(bytes.as_slice()))
        },
        None => Err(
            CoreError::new(
                "RANDOM_SOURCE_FAILURE",
                "VALIDATE",
                false,
                "安全なプレビューtokenを作成できませんでした。",
            ),
        ),
    }
}

} // verus!
