//! Measurement modes and the bitmask the native engine takes at construction.
//!
//! A mode names one measurement capability. A capability that cannot be
//! computed without another one carries that other one's bits as well, so a
//! mask built from any list of modes is closed under prerequisites.

use crate::encoding::{lemma_strip_tag, strip_tag, MODE_TAG};
use vstd::prelude::*;

verus! {

/// A measurement capability that a session can be created with.
#[derive(Clone, Copy, PartialEq, Eq, Debug, Structural)]
pub enum Mode {
    /// Momentary loudness.
    M,
    /// Short-term loudness; needs momentary.
    S,
    /// Integrated (global) loudness; needs momentary.
    I,
    /// Loudness range; needs short-term.
    LRA,
    /// Sample peak; needs momentary.
    SamplePeak,
    /// True peak; needs sample peak.
    TruePeak,
    /// Histogram storage for the integrated and range measurements.
    Histogram,
}

impl Mode {
    /// Whether requesting `self` also requests `other`: every mode implies
    /// itself and, through any number of steps, what it needs.
    pub open spec fn implies(self, other: Mode) -> bool {
        self == other || match self {
            Mode::M => false,
            Mode::S => other == Mode::M,
            Mode::I => other == Mode::M,
            Mode::LRA => other == Mode::S || other == Mode::M,
            Mode::SamplePeak => other == Mode::M,
            Mode::TruePeak => other == Mode::SamplePeak || other == Mode::M,
            Mode::Histogram => false,
        }
    }

    /// The bits the native engine knows this mode by: one bit of its own and
    /// the bits of everything it implies.
    pub open spec fn spec_native_bits(self) -> i32 {
        match self {
            Mode::M => 0x01,
            Mode::S => 0x03,
            Mode::I => 0x05,
            Mode::LRA => 0x0b,
            Mode::SamplePeak => 0x11,
            Mode::TruePeak => 0x31,
            Mode::Histogram => 0x40,
        }
    }

    /// The identifier of this mode: its native bits under the mode tag, which
    /// keeps it apart from every channel identifier.
    pub open spec fn spec_code(self) -> i32 {
        (MODE_TAG + self.spec_native_bits()) as i32
    }

    /// Returns the tagged identifier of this mode.
    #[verifier::when_used_as_spec(spec_code)]
    pub fn code(self) -> (c: i32)
        ensures
            c == self.spec_code(),
            c == MODE_TAG + self.spec_native_bits(),
    {
        match self {
            Mode::M => 0x2001,
            Mode::S => 0x2003,
            Mode::I => 0x2005,
            Mode::LRA => 0x200b,
            Mode::SamplePeak => 0x2011,
            Mode::TruePeak => 0x2031,
            Mode::Histogram => 0x2040,
        }
    }

    /// Returns the bits handed to the native engine for this mode: the
    /// identifier with its tag taken off.
    #[verifier::when_used_as_spec(spec_native_bits)]
    pub fn native_bits(self) -> (bits: i32)
        ensures
            bits == self.spec_native_bits(),
            bits == strip_tag(self.spec_code()),
    {
        proof {
            lemma_strip_tag(self.spec_code());
        }
        strip_tag(self.code())
    }
}

/// Whether `mask` enables `mode`: all of the mode's bits are set in it.
pub open spec fn mask_enables(mask: i32, mode: Mode) -> bool {
    mask & mode.spec_native_bits() == mode.spec_native_bits()
}

/// The mask for a list of modes: the bitwise or of their native bits.
pub open spec fn spec_encode_modes(modes: Seq<Mode>) -> i32
    decreases modes.len(),
{
    if modes.len() == 0 {
        0
    } else {
        spec_encode_modes(modes.drop_last()) | modes.last().spec_native_bits()
    }
}

/// Whether some mode of the list implies `mode`.
pub open spec fn requested(modes: Seq<Mode>, mode: Mode) -> bool {
    exists|i: int| 0 <= i < modes.len() && (#[trigger] modes[i]).implies(mode)
}

/// A mask in which no capability is set without its prerequisites, and
/// nothing is set that is not a capability.
pub open spec fn is_mode_mask(mask: i32) -> bool {
    &&& mask & !0x7fi32 == 0
    &&& mask & 0x02 != 0 ==> mask & 0x01 != 0
    &&& mask & 0x04 != 0 ==> mask & 0x01 != 0
    &&& mask & 0x08 != 0 ==> mask & 0x02 != 0
    &&& mask & 0x10 != 0 ==> mask & 0x01 != 0
    &&& mask & 0x20 != 0 ==> mask & 0x10 != 0
}

/// Builds the mask that the native engine takes at construction.
///
/// The mask enables exactly the modes that the list requests, directly or as
/// a prerequisite; an empty list gives the empty mask.
pub fn encode_modes(modes: &[Mode]) -> (mask: i32)
    ensures
        mask == spec_encode_modes(modes@),
        is_mode_mask(mask),
        0 <= mask <= 0x7f,
        forall|mode: Mode| mask_enables(mask, mode) <==> requested(modes@, mode),
{
    let mut mask: i32 = 0;
    let mut i: usize = 0;
    while i < modes.len()
        invariant
            i <= modes@.len(),
            mask == spec_encode_modes(modes@.take(i as int)),
        decreases modes@.len() - i,
    {
        assert(modes@.take(i + 1).drop_last() == modes@.take(i as int));
        mask = mask | modes[i].native_bits();
        i = i + 1;
    }
    proof {
        assert(modes@.take(i as int) == modes@);
        lemma_encode_modes(modes@);
    }
    mask
}

/// The native bits of one mode against those of another, as numbers.
proof fn lemma_native_bits_table(a: i32, b: i32)
    by (bit_vector)
    requires
        a == 0x01 || a == 0x03 || a == 0x05 || a == 0x0b || a == 0x11 || a == 0x31 || a == 0x40,
        b == 0x01 || b == 0x03 || b == 0x05 || b == 0x0b || b == 0x11 || b == 0x31 || b == 0x40,
    ensures
        (a & b == b) <==> (a == b || (b == 0x01 && a != 0x40) || (b == 0x03 && a == 0x0b) || (b
            == 0x11 && a == 0x31)),
{
}

/// Or-ing two closed masks sets a mode's bits only if one of them had them.
proof fn lemma_or_of_mode_masks(x: i32, y: i32, b: i32)
    by (bit_vector)
    requires
        is_mode_mask(x),
        is_mode_mask(y),
        b == 0x01 || b == 0x03 || b == 0x05 || b == 0x0b || b == 0x11 || b == 0x31 || b == 0x40,
    ensures
        is_mode_mask(x | y),
        0 <= (x | y) <= 0x7f,
        ((x | y) & b == b) <==> (x & b == b || y & b == b),
{
}

/// Zero and the native bits of every mode are closed masks.
proof fn lemma_native_bits_closed(a: i32)
    by (bit_vector)
    requires
        a == 0 || a == 0x01 || a == 0x03 || a == 0x05 || a == 0x0b || a == 0x11 || a == 0x31 || a
            == 0x40,
    ensures
        is_mode_mask(a),
        0 <= a <= 0x7f,
{
}

/// A mode's native bits enable exactly the modes that it implies.
pub proof fn lemma_native_bits_enable_implied(mode: Mode, other: Mode)
    ensures
        mask_enables(mode.spec_native_bits(), other) <==> mode.implies(other),
{
    lemma_native_bits_table(mode.spec_native_bits(), other.spec_native_bits());
}

/// The mask of a list of modes is closed, and it enables a mode exactly if
/// the list requests it. In particular every prerequisite of a listed mode is
/// enabled, and nothing is enabled that no listed mode asks for.
pub proof fn lemma_encode_modes(modes: Seq<Mode>)
    ensures
        is_mode_mask(spec_encode_modes(modes)),
        0 <= spec_encode_modes(modes) <= 0x7f,
        forall|mode: Mode|
            mask_enables(spec_encode_modes(modes), mode) <==> requested(modes, mode),
    decreases modes.len(),
{
    let mask = spec_encode_modes(modes);
    if modes.len() == 0 {
        lemma_native_bits_closed(0);
        assert forall|mode: Mode| !mask_enables(0, mode) by {
            let bits = mode.spec_native_bits();
            assert(0i32 & bits != bits) by (bit_vector)
                requires
                    bits != 0,
            ;
        }
    } else {
        let init = modes.drop_last();
        let last = modes.last();
        lemma_encode_modes(init);
        lemma_native_bits_closed(last.spec_native_bits());
        assert forall|mode: Mode| mask_enables(mask, mode) <==> requested(modes, mode) by {
            lemma_or_of_mode_masks(
                spec_encode_modes(init),
                last.spec_native_bits(),
                mode.spec_native_bits(),
            );
            lemma_native_bits_enable_implied(last, mode);
            if requested(init, mode) {
                let i = choose|i: int| 0 <= i < init.len() && (#[trigger] init[i]).implies(mode);
                assert(modes[i] == init[i]);
            }
            if last.implies(mode) {
                assert(modes[modes.len() - 1].implies(mode));
            }
            if requested(modes, mode) {
                let i = choose|i: int| 0 <= i < modes.len() && (#[trigger] modes[i]).implies(mode);
                if i < init.len() {
                    assert(init[i] == modes[i]);
                }
            }
        }
        lemma_or_of_mode_masks(
            spec_encode_modes(init),
            last.spec_native_bits(),
            Mode::M.spec_native_bits(),
        );
    }
}

} // verus!
