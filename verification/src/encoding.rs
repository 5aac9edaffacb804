//! The tagging scheme shared by modes and channel roles.
//!
//! The native engine numbers its measurement modes and its channel roles from
//! small integers, and it gives some channel roles the same number on purpose.
//! On this side of the boundary every identifier has a number of its own: the
//! engine's number in the low twelve bits, and above them a tag that keeps
//! identifiers apart which the engine does not tell apart. The tag is taken
//! off immediately before a value is handed to the engine.

use vstd::prelude::*;

verus! {

/// The bits of an identifier that reach the native engine.
pub const NATIVE_MASK: i32 = 0x0fff;

/// The tag of the channel roles named after stereo positions.
pub const CHANNEL_TAG: i32 = 0x1000;

/// The tag of the measurement modes.
pub const MODE_TAG: i32 = 0x2000;

/// The native part of a tagged identifier.
pub open spec fn spec_strip_tag(code: i32) -> i32 {
    code & NATIVE_MASK
}

/// Takes the tag off an identifier.
///
/// For an identifier that is not negative the result is its remainder modulo
/// 0x1000: an untagged identifier passes unchanged, a tagged one loses exactly
/// its tag.
#[verifier::when_used_as_spec(spec_strip_tag)]
pub fn strip_tag(code: i32) -> (native: i32)
    ensures
        native == spec_strip_tag(code),
        0 <= native <= NATIVE_MASK,
        code >= 0 ==> native == code % 0x1000,
{
    proof {
        lemma_strip_tag(code);
    }
    code & NATIVE_MASK
}

/// Masking with `NATIVE_MASK` keeps the low twelve bits, which for a
/// non-negative identifier are its remainder modulo 0x1000.
pub proof fn lemma_strip_tag(code: i32)
    ensures
        0 <= spec_strip_tag(code) <= NATIVE_MASK,
        code >= 0 ==> spec_strip_tag(code) == code % 0x1000,
{
    assert(0 <= code & 0x0fff <= 0x0fff) by (bit_vector);
    assert(code >= 0 ==> code & 0x0fff == code % 0x1000) by (bit_vector);
}

} // verus!
