//! Packed API version numbers: variant, major, minor and patch folded into
//! one 32-bit word, and the fields read back out of it.

use vstd::prelude::*;

verus! {

/// The packed word: variant in the top 3 bits, then 7 bits of major, 10 of
/// minor, 12 of patch.
pub open spec fn spec_api_version(variant: int, major: int, minor: int, patch: int) -> int {
    ((variant * 128 + major) * 1024 + minor) * 4096 + patch
}

/// Pack an API version number.
pub fn make_api_version(variant: u32, major: u32, minor: u32, patch: u32) -> (r: u32)
    requires
        variant < 8,
        major < 128,
        minor < 1024,
        patch < 4096,
    ensures
        r == spec_api_version(variant as int, major as int, minor as int, patch as int),
{
    ((variant * 128 + major) * 1024 + minor) * 4096 + patch
}

/// The variant field of a packed version.
pub fn api_version_variant(version: u32) -> (r: u32)
    ensures
        r == version as int / 0x2000_0000,
{
    version / 0x2000_0000
}

/// The major field of a packed version.
pub fn api_version_major(version: u32) -> (r: u32)
    ensures
        r == (version as int / 0x40_0000) % 128,
{
    (version / 0x40_0000) % 128
}

/// The minor field of a packed version.
pub fn api_version_minor(version: u32) -> (r: u32)
    ensures
        r == (version as int / 0x1000) % 1024,
{
    (version / 0x1000) % 1024
}

/// The patch field of a packed version.
pub fn api_version_patch(version: u32) -> (r: u32)
    ensures
        r == version as int % 4096,
{
    version % 4096
}

/// All four fields of a packed version, as (variant, major, minor, patch).
pub fn get_api(api: u32) -> (r: (u32, u32, u32, u32))
    ensures
        r.0 == api as int / 0x2000_0000,
        r.1 == (api as int / 0x40_0000) % 128,
        r.2 == (api as int / 0x1000) % 1024,
        r.3 == api as int % 4096,
{
    (
        api_version_variant(api),
        api_version_major(api),
        api_version_minor(api),
        api_version_patch(api),
    )
}

/// Packing and unpacking round-trip: each field is read back unchanged.
pub proof fn lemma_api_version_round_trip(variant: int, major: int, minor: int, patch: int)
    requires
        0 <= variant < 8,
        0 <= major < 128,
        0 <= minor < 1024,
        0 <= patch < 4096,
    ensures
        ({
            let v = spec_api_version(variant, major, minor, patch);
            &&& v / 0x2000_0000 == variant
            &&& (v / 0x40_0000) % 128 == major
            &&& (v / 0x1000) % 1024 == minor
            &&& v % 4096 == patch
        }),
{
    let v = spec_api_version(variant, major, minor, patch);
    let q2 = (variant * 128 + major) * 1024 + minor;
    vstd::arithmetic::div_mod::lemma_fundamental_div_mod_converse(v, 4096, q2, patch);
    let q1 = variant * 128 + major;
    vstd::arithmetic::div_mod::lemma_fundamental_div_mod_converse(q2, 1024, q1, minor);
    vstd::arithmetic::div_mod::lemma_fundamental_div_mod_converse(q1, 128, variant, major);
    assert(v / 0x1000 == q2);
    assert(q2 % 1024 == minor);
    assert(v / 0x40_0000 == q2 / 1024) by {
        vstd::arithmetic::div_mod::lemma_div_denominator(v, 4096, 1024);
    }
    assert(q1 % 128 == major);
    assert(v / 0x2000_0000 == q1 / 128) by {
        vstd::arithmetic::div_mod::lemma_div_denominator(v, 4096, 131072);
        vstd::arithmetic::div_mod::lemma_div_denominator(v / 4096, 1024, 128);
    }
    assert(q1 / 128 == variant);
}

/// The first API version that asks window systems on Apple platforms for the
/// portability extension: version 1.3.216.
pub const PORTABILITY_MACOS_VERSION: u32 = 0x40_30D8;

/// The named constant really is the packed form of version 1.3.216.
pub proof fn lemma_portability_version_fields()
    ensures
        PORTABILITY_MACOS_VERSION as int == spec_api_version(0, 1, 3, 216),
{
}

} // verus!
