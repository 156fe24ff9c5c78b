//! The identity of the running Windows installation.
//!
//! Reading WMI and the registry happens outside this library; here the two
//! observations are parsed and combined, and disagreement is refused.

use vstd::prelude::*;
use vstd::string::StringSliceAdditionalSpecFns;

verus! {

#[derive(Debug, Clone, Copy, PartialEq, Eq, Structural)]
pub enum Architecture {
    X64,
    Arm64,
    X86,
    Unknown,
}

#[derive(Debug, Clone, Copy, PartialEq, Eq, Structural)]
pub enum OsIdentitySource {
    WmiAndRegistry64,
}

#[derive(Debug, Clone, Copy, PartialEq, Eq, Structural)]
pub struct OsIdentity {
    pub major: u32,
    pub minor: u32,
    pub base_build: u32,
    pub revision: Option<u32>,
    pub operating_system_sku: u32,
    pub product_type: u32,
    pub architecture: Architecture,
    pub observed_at_unix_ms: u64,
    pub source: OsIdentitySource,
}

#[derive(Debug, Clone, Copy, PartialEq, Eq, Structural)]
pub enum OsIdentityErrorKind {
    UnsupportedPlatform,
    WmiUnavailable,
    RegistryUnavailable,
    InvalidObservation,
    ConflictingObservation,
}

/// Why the Windows identity could not be established.
#[derive(Debug, Clone, Copy)]
pub struct OsIdentityError {
    pub kind: OsIdentityErrorKind,
    pub message: &'static str,
}

impl OsIdentityError {
    pub fn new(kind: OsIdentityErrorKind, message: &'static str) -> (e: OsIdentityError)
        ensures
            e.kind == kind,
            e.message == message,
    {
        OsIdentityError { kind, message }
    }

}

/// What WMI reported about the operating system.
#[derive(Debug, Clone, Copy, PartialEq, Eq, Structural)]
pub struct WmiIdentity {
    pub major: u32,
    pub minor: u32,
    pub base_build: u32,
    pub operating_system_sku: u32,
    pub product_type: u32,
}

/// What the 64-bit registry view reported.
#[derive(Debug, Clone, Copy, PartialEq, Eq, Structural)]
pub struct RegistryObservation {
    pub base_build: u32,
    pub revision: Option<u32>,
    pub architecture: Architecture,
}

impl OsIdentity {
    /// A Windows 11 Pro x64 identity with the given build, for tests.
    pub fn from_test_build(base_build: u32) -> (os: OsIdentity)
        ensures
            os == (OsIdentity {
                major: 10,
                minor: 0,
                base_build,
                revision: Some(1),
                operating_system_sku: 48,
                product_type: 1,
                architecture: Architecture::X64,
                observed_at_unix_ms: 0,
                source: OsIdentitySource::WmiAndRegistry64,
            }),
    {
        OsIdentity {
            major: 10,
            minor: 0,
            base_build,
            revision: Some(1),
            operating_system_sku: 48,
            product_type: 1,
            architecture: Architecture::X64,
            observed_at_unix_ms: 0,
            source: OsIdentitySource::WmiAndRegistry64,
        }
    }
}

/// Combines the two observations. They must agree on the base build.
pub fn combine_observations(wmi: WmiIdentity, registry: RegistryObservation, observed_at_unix_ms: u64) -> (r:
    Result<OsIdentity, OsIdentityError>)
    ensures
        registry.base_build != wmi.base_build ==> (r matches Err(e) && e.kind
            == OsIdentityErrorKind::ConflictingObservation),
        registry.base_build == wmi.base_build ==> r == Ok::<OsIdentity, OsIdentityError>(
            OsIdentity {
                major: wmi.major,
                minor: wmi.minor,
                base_build: wmi.base_build,
                revision: registry.revision,
                operating_system_sku: wmi.operating_system_sku,
                product_type: wmi.product_type,
                architecture: registry.architecture,
                observed_at_unix_ms,
                source: OsIdentitySource::WmiAndRegistry64,
            },
        ),
{
    if registry.base_build != wmi.base_build {
        return Err(OsIdentityError::new(
            OsIdentityErrorKind::ConflictingObservation,
            "Windows build observations disagree",
        ));
    }
    Ok(OsIdentity {
        major: wmi.major,
        minor: wmi.minor,
        base_build: wmi.base_build,
        revision: registry.revision,
        operating_system_sku: wmi.operating_system_sku,
        product_type: wmi.product_type,
        architecture: registry.architecture,
        observed_at_unix_ms,
        source: OsIdentitySource::WmiAndRegistry64,
    })
}

/// The value of a run of decimal digits.
pub open spec fn spec_digits_value(s: Seq<u8>) -> nat
    decreases s.len(),
{
    if s.len() == 0 {
        0
    } else {
        spec_digits_value(s.drop_last()) * 10 + (s.last() - 48) as nat
    }
}

pub open spec fn all_digits(s: Seq<u8>) -> bool {
    forall|i: int| 0 <= i < s.len() ==> 48 <= #[trigger] s[i] <= 57
}

/// What `u32::from_str` accepts: an optional `+`, then one or more decimal
/// digits whose value fits in 32 bits.
pub open spec fn spec_parse_u32(s: Seq<u8>) -> Option<u32> {
    let digits = if s.len() > 0 && s[0] == 43 {
        s.drop_first()
    } else {
        s
    };
    if digits.len() > 0 && all_digits(digits) && spec_digits_value(digits) <= u32::MAX {
        Some(spec_digits_value(digits) as u32)
    } else {
        None
    }
}

proof fn lemma_digits_value_monotone(s: Seq<u8>, i: int)
    requires
        0 <= i <= s.len(),
        all_digits(s),
    ensures
        spec_digits_value(s.subrange(0, i)) <= spec_digits_value(s),
    decreases s.len() - i,
{
    if i < s.len() {
        lemma_digits_value_monotone(s, i + 1);
        assert(s.subrange(0, i + 1).drop_last() =~= s.subrange(0, i));
    } else {
        assert(s.subrange(0, i) =~= s);
    }
}

/// Parses a decimal `u32` exactly as `u32::from_str` does.
pub fn parse_u32(s: &[u8]) -> (r: Option<u32>)
    ensures
        r == spec_parse_u32(s@),
{
    let start: usize = if s.len() > 0 && s[0] == 43 {
        1
    } else {
        0
    };
    let ghost digits = if s@.len() > 0 && s@[0] == 43 {
        s@.drop_first()
    } else {
        s@
    };
    assert(digits =~= s@.subrange(start as int, s@.len() as int));
    let ghost expected = if digits.len() > 0 && all_digits(digits) && spec_digits_value(digits) <= u32::MAX {
        Some(spec_digits_value(digits) as u32)
    } else {
        None
    };
    assert(spec_parse_u32(s@) == expected);
    if start >= s.len() {
        return None;
    }
    let mut value: u64 = 0;
    let mut i: usize = start;
    while i < s.len()
        invariant
            start <= i <= s@.len(),
            digits =~= s@.subrange(start as int, s@.len() as int),
            all_digits(s@.subrange(start as int, i as int)),
            value == spec_digits_value(s@.subrange(start as int, i as int)),
            value <= u32::MAX,
            spec_parse_u32(s@) == expected,
            expected == (if digits.len() > 0 && all_digits(digits) && spec_digits_value(digits) <= u32::MAX {
                Some(spec_digits_value(digits) as u32)
            } else {
                None::<u32>
            }),
            digits.len() > 0,
        decreases s@.len() - i,
    {
        let b = s[i];
        if b < 48 || b > 57 {
            assert(digits[i - start] == b);
            return None;
        }
        let next = value * 10 + (b - 48) as u64;
        assert(s@.subrange(start as int, i + 1).drop_last() =~= s@.subrange(start as int, i as int));
        assert(s@.subrange(start as int, i + 1).last() == b);
        assert(spec_digits_value(s@.subrange(start as int, i + 1)) == next);
        if next > 4294967295 {
            proof {
                assert(all_digits(s@.subrange(start as int, i + 1)));
                if all_digits(digits) {
                    lemma_digits_value_monotone(digits, i + 1 - start);
                    assert(digits.subrange(0, i + 1 - start) =~= s@.subrange(start as int, i + 1));
                }
            }
            return None;
        }
        value = next;
        i = i + 1;
    }
    assert(s@.subrange(start as int, s@.len() as int) =~= digits);
    Some(value as u32)
}

/// The architecture named by `PROCESSOR_ARCHITECTURE`.
pub fn architecture_from_text(text: &str) -> (a: Architecture)
    ensures
        text@ == "AMD64"@ ==> a == Architecture::X64,
        text@ == "ARM64"@ ==> a == Architecture::Arm64,
        (text@ == "x86"@ || text@ == "X86"@) ==> a == Architecture::X86,
        !(text@ == "AMD64"@ || text@ == "ARM64"@ || text@ == "x86"@ || text@ == "X86"@) ==> a
            == Architecture::Unknown,
{
    proof {
        reveal_strlit("AMD64");
        reveal_strlit("ARM64");
        reveal_strlit("x86");
        reveal_strlit("X86");
        assert("AMD64"@[1] != "ARM64"@[1]);
        assert("AMD64"@.len() != "x86"@.len() && "AMD64"@.len() != "X86"@.len());
        assert("ARM64"@.len() != "x86"@.len() && "ARM64"@.len() != "X86"@.len());
    }
    let owned = text.to_owned();
    if owned == "AMD64".to_owned() {
        Architecture::X64
    } else if owned == "ARM64".to_owned() {
        Architecture::Arm64
    } else if owned == "x86".to_owned() || owned == "X86".to_owned() {
        Architecture::X86
    } else {
        Architecture::Unknown
    }
}

} // verus!
