//! SHA-256 fingerprints, and an unambiguous framing of several byte strings.

use vstd::prelude::*;
use vstd::bytes::{spec_u64_to_le_bytes, u64_to_le_bytes, spec_u64_from_le_bytes, lemma_auto_spec_u64_to_from_le_bytes};
use sha2::Digest;
use crate::text::{lower_hex, spec_lower_hex, lemma_lower_hex_len};

verus! {

/// The SHA-256 digest of a byte string.
pub uninterp spec fn sha256(data: Seq<u8>) -> Seq<u8>;

/// Computes SHA-256.
///
/// Trusted: calls `sha2::Sha256::digest`, which returns the 32-byte SHA-256
/// digest of its input; the digest is named `sha256` here.
#[verifier::external_body]
fn sha256_digest(data: &[u8]) -> (digest: [u8; 32])
    ensures
        digest@ == sha256(data@),
{
    sha2::Sha256::digest(data).into()
}

/// A 32-byte SHA-256 fingerprint.
#[derive(Debug, Clone, Copy, PartialEq, Eq, Hash)]
pub struct Fingerprint(pub [u8; 32]);

/// Each part as its length in 8 little-endian bytes followed by its bytes.
pub open spec fn spec_frame(parts: Seq<Seq<u8>>) -> Seq<u8>
    decreases parts.len(),
{
    if parts.len() == 0 {
        Seq::empty()
    } else {
        spec_u64_to_le_bytes(parts[0].len() as u64) + parts[0] + spec_frame(parts.drop_first())
    }
}

pub open spec fn parts_view(parts: Seq<&[u8]>) -> Seq<Seq<u8>> {
    parts.map_values(|p: &[u8]| p@)
}

/// Every part is short enough for its length to be written in 8 bytes.
pub open spec fn parts_in_range(parts: Seq<Seq<u8>>) -> bool {
    forall|i: int| 0 <= i < parts.len() ==> #[trigger] parts[i].len() <= u64::MAX
}

proof fn lemma_frame_push(parts: Seq<Seq<u8>>, p: Seq<u8>)
    ensures
        spec_frame(parts.push(p)) == spec_frame(parts) + spec_u64_to_le_bytes(p.len() as u64) + p,
    decreases parts.len(),
{
    if parts.len() == 0 {
        assert(parts.push(p).drop_first() =~= Seq::<Seq<u8>>::empty());
        assert(parts.push(p)[0] == p);
        assert(spec_frame(parts.push(p).drop_first()) == Seq::<u8>::empty());
        assert(spec_frame(parts) == Seq::<u8>::empty());
        assert(spec_frame(parts.push(p)) =~= spec_u64_to_le_bytes(p.len() as u64) + p);
    } else {
        assert(parts.push(p).drop_first() =~= parts.drop_first().push(p));
        lemma_frame_push(parts.drop_first(), p);
        assert(spec_frame(parts.push(p)) =~= spec_frame(parts) + spec_u64_to_le_bytes(p.len() as u64) + p);
    }
}

/// Framing is unambiguous: two lists of parts with the same framing are the
/// same list, so moving bytes between parts always changes the framed input.
pub proof fn lemma_framing_is_unambiguous(a: Seq<Seq<u8>>, b: Seq<Seq<u8>>)
    requires
        parts_in_range(a),
        parts_in_range(b),
        spec_frame(a) == spec_frame(b),
    ensures
        a == b,
    decreases a.len(),
{
    lemma_auto_spec_u64_to_from_le_bytes();
    if a.len() == 0 {
        if b.len() > 0 {
            assert(spec_frame(b).len() >= 8);
        }
        assert(a =~= b);
    } else {
        if b.len() == 0 {
            assert(spec_frame(a).len() >= 8);
            assert(false);
        }
        let fa = spec_frame(a);
        let la = spec_u64_to_le_bytes(a[0].len() as u64);
        let lb = spec_u64_to_le_bytes(b[0].len() as u64);
        assert(fa.subrange(0, 8) =~= la);
        assert(spec_frame(b).subrange(0, 8) =~= lb);
        assert(spec_u64_from_le_bytes(la) == a[0].len());
        assert(a[0].len() == b[0].len());
        let n = a[0].len() as int;
        assert(fa.subrange(8, 8 + n) =~= a[0]);
        assert(spec_frame(b).subrange(8, 8 + n) =~= b[0]);
        assert(fa.subrange(8 + n, fa.len() as int) =~= spec_frame(a.drop_first()));
        assert(spec_frame(b).subrange(8 + n, fa.len() as int) =~= spec_frame(b.drop_first()));
        assert(parts_in_range(a.drop_first()));
        assert(parts_in_range(b.drop_first()));
        lemma_framing_is_unambiguous(a.drop_first(), b.drop_first());
        assert(a =~= seq![a[0]] + a.drop_first());
        assert(b =~= seq![b[0]] + b.drop_first());
    }
}

impl Fingerprint {
    /// The SHA-256 of the bytes.
    pub fn of_bytes(bytes: &[u8]) -> (f: Fingerprint)
        ensures
            f.0@ == sha256(bytes@),
    {
        Fingerprint(sha256_digest(bytes))
    }

    /// The SHA-256 of the parts, each framed by its length, so that
    /// `["ab", "c"]` and `["a", "bc"]` give different inputs.
    pub fn of_parts(parts: &[&[u8]]) -> (f: Fingerprint)
        ensures
            f.0@ == sha256(spec_frame(parts_view(parts@))),
    {
        let mut framed: Vec<u8> = Vec::new();
        let mut i: usize = 0;
        while i < parts.len()
            invariant
                i <= parts@.len(),
                framed@ == spec_frame(parts_view(parts@).subrange(0, i as int)),
            decreases parts@.len() - i,
        {
            let part = parts[i];
            let mut length = u64_to_le_bytes(part.len() as u64);
            framed.append(&mut length);
            let mut j: usize = 0;
            let ghost before = framed@;
            while j < part.len()
                invariant
                    j <= part@.len(),
                    framed@ == before + part@.subrange(0, j as int),
                decreases part@.len() - j,
            {
                framed.push(part[j]);
                assert(part@.subrange(0, j + 1) =~= part@.subrange(0, j as int).push(part@[j as int]));
                j = j + 1;
            }
            proof {
                assert(part@.subrange(0, part@.len() as int) =~= part@);
                let pv = parts_view(parts@);
                assert(pv.subrange(0, i + 1) =~= pv.subrange(0, i as int).push(part@));
                lemma_frame_push(pv.subrange(0, i as int), part@);
            }
            i = i + 1;
        }
        assert(parts_view(parts@).subrange(0, parts@.len() as int) =~= parts_view(parts@));
        Fingerprint(sha256_digest(framed.as_slice()))
    }

    /// The fingerprint as 64 lower-case hexadecimal characters.
    pub fn to_hex(self) -> (s: String)
        ensures
            s@ == spec_lower_hex(self.0@),
            s@.len() == 64,
    {
        proof {
            lemma_lower_hex_len(self.0@);
        }
        lower_hex(self.0.as_slice())
    }
}

/// Whether two fingerprints hold the same bytes.
pub fn same_fingerprint(a: &Fingerprint, b: &Fingerprint) -> (r: bool)
    ensures
        r == (a.0@ == b.0@),
{
    let mut i: usize = 0;
    while i < 32
        invariant
            i <= 32,
            forall|k: int| 0 <= k < i ==> a.0[k] == b.0[k],
        decreases 32 - i,
    {
        if a.0[i] != b.0[i] {
            assert(a.0@[i as int] != b.0@[i as int]);
            return false;
        }
        i = i + 1;
    }
    assert(a.0@ =~= b.0@);
    true
}

} // verus!
