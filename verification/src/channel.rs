//! Channel roles and the numbers the native engine knows them by.
//!
//! The engine numbers the ITU positions from zero and gives the five stereo
//! positions the numbers of the ITU positions they coincide with. Here every
//! role has an identifier of its own: the stereo positions carry the channel
//! tag above the engine's number, and the tag is taken off when a role is
//! handed to the engine.

use crate::encoding::{lemma_strip_tag, strip_tag, CHANNEL_TAG};
use crate::mode::Mode;
use vstd::prelude::*;

verus! {

/// The role of one audio channel.
#[derive(Clone, Copy, PartialEq, Eq, Debug, Structural)]
pub enum Channel {
    /// Unused channel, for example the LFE channel.
    Unused,
    /// ITU M+030.
    Mp030,
    /// ITU M-030.
    Mm030,
    /// ITU M+000.
    Mp000,
    /// ITU M+110.
    Mp110,
    /// ITU M-110.
    Mm110,
    /// A channel that is counted twice.
    DualMono,
    /// ITU M+SC.
    MpSC,
    /// ITU M-SC.
    MmSC,
    /// ITU M+060.
    Mp060,
    /// ITU M-060.
    Mm060,
    /// ITU M+090.
    Mp090,
    /// ITU M-090.
    Mm090,
    /// ITU M+135.
    Mp135,
    /// ITU M-135.
    Mm135,
    /// ITU M+180.
    Mp180,
    /// ITU U+000.
    Up000,
    /// ITU U+030.
    Up030,
    /// ITU U-030.
    Um030,
    /// ITU U+045.
    Up045,
    /// ITU U-045.
    Um045,
    /// ITU U+090.
    Up090,
    /// ITU U-090.
    Um090,
    /// ITU U+110.
    Up110,
    /// ITU U-110.
    Um110,
    /// ITU U+135.
    Up135,
    /// ITU U-135.
    Um135,
    /// ITU U+180.
    Up180,
    /// ITU T+000.
    Tp000,
    /// ITU B+000.
    Bp000,
    /// ITU B+045.
    Bp045,
    /// ITU B-045.
    Bm045,
    /// Left; the engine's number for it is that of M+030.
    Left,
    /// Right; the engine's number for it is that of M-030.
    Right,
    /// Center; the engine's number for it is that of M+000.
    Center,
    /// Left surround; the engine's number for it is that of M+110.
    LeftSurround,
    /// Right surround; the engine's number for it is that of M-110.
    RightSurround,
}

impl Channel {
    /// The identifier of this role. No two roles share one.
    pub open spec fn spec_code(self) -> i32 {
        match self {
            Channel::Unused => 0,
            Channel::Mp030 => 1,
            Channel::Mm030 => 2,
            Channel::Mp000 => 3,
            Channel::Mp110 => 4,
            Channel::Mm110 => 5,
            Channel::DualMono => 6,
            Channel::MpSC => 7,
            Channel::MmSC => 8,
            Channel::Mp060 => 9,
            Channel::Mm060 => 10,
            Channel::Mp090 => 11,
            Channel::Mm090 => 12,
            Channel::Mp135 => 13,
            Channel::Mm135 => 14,
            Channel::Mp180 => 15,
            Channel::Up000 => 16,
            Channel::Up030 => 17,
            Channel::Um030 => 18,
            Channel::Up045 => 19,
            Channel::Um045 => 20,
            Channel::Up090 => 21,
            Channel::Um090 => 22,
            Channel::Up110 => 23,
            Channel::Um110 => 24,
            Channel::Up135 => 25,
            Channel::Um135 => 26,
            Channel::Up180 => 27,
            Channel::Tp000 => 28,
            Channel::Bp000 => 29,
            Channel::Bp045 => 30,
            Channel::Bm045 => 31,
            Channel::Left => 0x1001,
            Channel::Right => 0x1002,
            Channel::Center => 0x1003,
            Channel::LeftSurround => 0x1004,
            Channel::RightSurround => 0x1005,
        }
    }

    /// The number the native engine knows this role by: the identifier
    /// without its tag.
    pub open spec fn spec_native_value(self) -> i32 {
        self.spec_code() % 0x1000
    }

    /// The ITU position whose native number this role has: for a stereo
    /// position the position it coincides with, for every other role itself.
    pub open spec fn itu_position(self) -> Channel {
        match self {
            Channel::Left => Channel::Mp030,
            Channel::Right => Channel::Mm030,
            Channel::Center => Channel::Mp000,
            Channel::LeftSurround => Channel::Mp110,
            Channel::RightSurround => Channel::Mm110,
            other => other,
        }
    }

    /// Whether this role is one of the five stereo positions, which carry the
    /// channel tag.
    pub open spec fn is_tagged(self) -> bool {
        self.itu_position() != self
    }

    /// Returns the identifier of this role.
    #[verifier::when_used_as_spec(spec_code)]
    pub fn code(self) -> (c: i32)
        ensures
            c == self.spec_code(),
            self.is_tagged() ==> c == CHANNEL_TAG + self.itu_position().spec_code(),
            !self.is_tagged() ==> 0 <= c <= 31,
    {
        match self {
            Channel::Unused => 0,
            Channel::Mp030 => 1,
            Channel::Mm030 => 2,
            Channel::Mp000 => 3,
            Channel::Mp110 => 4,
            Channel::Mm110 => 5,
            Channel::DualMono => 6,
            Channel::MpSC => 7,
            Channel::MmSC => 8,
            Channel::Mp060 => 9,
            Channel::Mm060 => 10,
            Channel::Mp090 => 11,
            Channel::Mm090 => 12,
            Channel::Mp135 => 13,
            Channel::Mm135 => 14,
            Channel::Mp180 => 15,
            Channel::Up000 => 16,
            Channel::Up030 => 17,
            Channel::Um030 => 18,
            Channel::Up045 => 19,
            Channel::Um045 => 20,
            Channel::Up090 => 21,
            Channel::Um090 => 22,
            Channel::Up110 => 23,
            Channel::Um110 => 24,
            Channel::Up135 => 25,
            Channel::Um135 => 26,
            Channel::Up180 => 27,
            Channel::Tp000 => 28,
            Channel::Bp000 => 29,
            Channel::Bp045 => 30,
            Channel::Bm045 => 31,
            Channel::Left => 0x1001,
            Channel::Right => 0x1002,
            Channel::Center => 0x1003,
            Channel::LeftSurround => 0x1004,
            Channel::RightSurround => 0x1005,
        }
    }

    /// Returns the number handed to the native engine for this role: the
    /// identifier with its tag taken off. Roles that the engine does not tell
    /// apart give the same number.
    #[verifier::when_used_as_spec(spec_native_value)]
    pub fn native_value(self) -> (v: i32)
        ensures
            v == self.spec_native_value(),
            v == strip_tag(self.spec_code()),
            v == self.itu_position().spec_code(),
            0 <= v <= 31,
    {
        proof {
            lemma_strip_tag(self.spec_code());
        }
        strip_tag(self.code())
    }
}

/// Identifiers are distinct: two roles with the same identifier are the same
/// role.
pub proof fn lemma_channel_code_injective(a: Channel, b: Channel)
    ensures
        a.spec_code() == b.spec_code() <==> a == b,
{
}

/// Two roles reach the native engine as the same number exactly if they name
/// the same ITU position. So a stereo position and the ITU position it
/// coincides with are told apart here and not by the engine.
pub proof fn lemma_channel_alias(a: Channel, b: Channel)
    ensures
        a.spec_native_value() == b.spec_native_value() <==> a.itu_position() == b.itu_position(),
        a.spec_native_value() == a.itu_position().spec_native_value(),
        a.spec_native_value() == a.itu_position().spec_code(),
        a.is_tagged() ==> a != a.itu_position() && a.spec_code() == CHANNEL_TAG
            + a.spec_native_value(),
        !a.is_tagged() ==> a.spec_code() == a.spec_native_value(),
        0 <= a.spec_native_value() <= 31,
{
}

/// No mode identifier is a channel identifier.
pub proof fn lemma_mode_and_channel_codes_disjoint(mode: Mode, channel: Channel)
    ensures
        mode.spec_code() != channel.spec_code(),
        0x2000 < mode.spec_code() <= 0x2fff,
        0 <= channel.spec_code() < 0x2000,
{
}

} // verus!
