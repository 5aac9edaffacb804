use ebur128::encoding::{strip_tag, CHANNEL_TAG, MODE_TAG, NATIVE_MASK};
use ebur128::error::STATUS_SUCCESS;
use ebur128::{encode_modes, is_known_status, to_result, to_result_t, Channel, Error, Mode};

const ITU_ROLES: [Channel; 32] = [
    Channel::Unused,
    Channel::Mp030,
    Channel::Mm030,
    Channel::Mp000,
    Channel::Mp110,
    Channel::Mm110,
    Channel::DualMono,
    Channel::MpSC,
    Channel::MmSC,
    Channel::Mp060,
    Channel::Mm060,
    Channel::Mp090,
    Channel::Mm090,
    Channel::Mp135,
    Channel::Mm135,
    Channel::Mp180,
    Channel::Up000,
    Channel::Up030,
    Channel::Um030,
    Channel::Up045,
    Channel::Um045,
    Channel::Up090,
    Channel::Um090,
    Channel::Up110,
    Channel::Um110,
    Channel::Up135,
    Channel::Um135,
    Channel::Up180,
    Channel::Tp000,
    Channel::Bp000,
    Channel::Bp045,
    Channel::Bm045,
];

const STEREO_ROLES: [(Channel, Channel); 5] = [
    (Channel::Left, Channel::Mp030),
    (Channel::Right, Channel::Mm030),
    (Channel::Center, Channel::Mp000),
    (Channel::LeftSurround, Channel::Mp110),
    (Channel::RightSurround, Channel::Mm110),
];

const MODES: [Mode; 7] = [
    Mode::M,
    Mode::S,
    Mode::I,
    Mode::LRA,
    Mode::SamplePeak,
    Mode::TruePeak,
    Mode::Histogram,
];

#[test]
fn status_zero_is_success() {
    assert_eq!(STATUS_SUCCESS, 0);
    assert_eq!(to_result(0), Ok(()));
    assert_eq!(to_result_t(0, 17u8), Ok(17u8));
    assert_eq!(Error::from_i32(0), None);
}

#[test]
fn each_failure_code_decodes_to_its_failure() {
    assert_eq!(to_result(1), Err(Error::NoMem));
    assert_eq!(to_result(2), Err(Error::InvalidMode));
    assert_eq!(to_result(3), Err(Error::InvalidChannelIndex));
    assert_eq!(to_result(4), Err(Error::NoChange));
    assert_eq!(Error::from_i32(1), Some(Error::NoMem));
    assert_eq!(Error::from_i32(2), Some(Error::InvalidMode));
    assert_eq!(Error::from_i32(3), Some(Error::InvalidChannelIndex));
    assert_eq!(Error::from_i32(4), Some(Error::NoChange));
}

#[test]
fn failure_codes_round_trip() {
    let all = [
        (Error::NoMem, 1),
        (Error::InvalidMode, 2),
        (Error::InvalidChannelIndex, 3),
        (Error::NoChange, 4),
    ];
    for (error, code) in all {
        assert_eq!(error.code(), code);
        assert_eq!(Error::from_i32(error.code()), Some(error));
        assert!(is_known_status(error.code()));
    }
}

#[test]
fn a_failure_drops_the_payload() {
    assert_eq!(to_result_t(2, -23.5f64), Err(Error::InvalidMode));
    assert_eq!(to_result_t(0, -23.5f64), Ok(-23.5f64));
    assert_eq!(to_result_t(4, "kept"), Err(Error::NoChange));
    assert_eq!(to_result_t(0, "kept"), Ok("kept"));
}

#[test]
fn statuses_outside_the_table_are_not_known() {
    for status in [-1, 5, 6, 255, i32::MAX, i32::MIN] {
        assert!(!is_known_status(status));
        assert_eq!(Error::from_i32(status), None);
    }
    for status in 0..=4 {
        assert!(is_known_status(status));
    }
}

#[test]
fn strip_tag_keeps_the_low_twelve_bits() {
    assert_eq!(NATIVE_MASK, 0x0fff);
    assert_eq!(strip_tag(0), 0);
    assert_eq!(strip_tag(31), 31);
    assert_eq!(strip_tag(0x0fff), 0x0fff);
    assert_eq!(strip_tag(0x1000), 0);
    assert_eq!(strip_tag(0x1005), 5);
    assert_eq!(strip_tag(0x2031), 0x31);
    assert_eq!(strip_tag(0x2fff), 0x0fff);
    assert_eq!(strip_tag(-1), 0x0fff);
}

#[test]
fn itu_roles_are_numbered_from_zero() {
    for (number, role) in ITU_ROLES.iter().enumerate() {
        assert_eq!(role.code(), number as i32);
        assert_eq!(role.native_value(), number as i32);
    }
    assert_eq!(Channel::Unused.native_value(), 0);
    assert_eq!(Channel::DualMono.native_value(), 6);
    assert_eq!(Channel::Mp180.native_value(), 15);
    assert_eq!(Channel::Tp000.native_value(), 28);
    assert_eq!(Channel::Bm045.native_value(), 31);
}

#[test]
fn stereo_roles_carry_the_tag_and_lose_it_for_the_engine() {
    assert_eq!(CHANNEL_TAG, 0x1000);
    assert_eq!(Channel::Left.code(), 0x1001);
    assert_eq!(Channel::Right.code(), 0x1002);
    assert_eq!(Channel::Center.code(), 0x1003);
    assert_eq!(Channel::LeftSurround.code(), 0x1004);
    assert_eq!(Channel::RightSurround.code(), 0x1005);
    assert_eq!(Channel::Left.native_value(), 1);
    assert_eq!(Channel::Right.native_value(), 2);
    assert_eq!(Channel::Center.native_value(), 3);
    assert_eq!(Channel::LeftSurround.native_value(), 4);
    assert_eq!(Channel::RightSurround.native_value(), 5);
}

#[test]
fn aliased_roles_differ_here_and_agree_for_the_engine() {
    for (stereo, itu) in STEREO_ROLES {
        assert_ne!(stereo, itu);
        assert_ne!(stereo.code(), itu.code());
        assert_eq!(stereo.code(), CHANNEL_TAG + itu.code());
        assert_eq!(stereo.native_value(), itu.native_value());
    }
}

#[test]
fn channel_identifiers_are_distinct() {
    let mut all: Vec<Channel> = ITU_ROLES.to_vec();
    for (stereo, _) in STEREO_ROLES {
        all.push(stereo);
    }
    assert_eq!(all.len(), 37);
    for (i, a) in all.iter().enumerate() {
        for (j, b) in all.iter().enumerate() {
            assert_eq!(a.code() == b.code(), i == j);
            assert_eq!(a == b, i == j);
        }
    }
}

#[test]
fn mode_bits_are_those_of_the_engine() {
    assert_eq!(Mode::M.native_bits(), 1 << 0);
    assert_eq!(Mode::S.native_bits(), (1 << 1) | 1);
    assert_eq!(Mode::I.native_bits(), (1 << 2) | 1);
    assert_eq!(Mode::LRA.native_bits(), (1 << 3) | (1 << 1) | 1);
    assert_eq!(Mode::SamplePeak.native_bits(), (1 << 4) | 1);
    assert_eq!(Mode::TruePeak.native_bits(), (1 << 5) | (1 << 4) | 1);
    assert_eq!(Mode::Histogram.native_bits(), 1 << 6);
}

#[test]
fn mode_identifiers_carry_the_mode_tag() {
    assert_eq!(MODE_TAG, 0x2000);
    assert_eq!(Mode::M.code(), 0x2001);
    assert_eq!(Mode::S.code(), 0x2003);
    assert_eq!(Mode::I.code(), 0x2005);
    assert_eq!(Mode::LRA.code(), 0x200b);
    assert_eq!(Mode::SamplePeak.code(), 0x2011);
    assert_eq!(Mode::TruePeak.code(), 0x2031);
    assert_eq!(Mode::Histogram.code(), 0x2040);
    for mode in MODES {
        assert_eq!(mode.code(), MODE_TAG | mode.native_bits());
        assert_eq!(strip_tag(mode.code()), mode.native_bits());
    }
}

#[test]
fn mode_identifiers_collide_with_no_channel_identifier() {
    let mut channels: Vec<Channel> = ITU_ROLES.to_vec();
    for (stereo, _) in STEREO_ROLES {
        channels.push(stereo);
    }
    for mode in MODES {
        for channel in &channels {
            assert_ne!(mode.code(), channel.code());
        }
    }
    assert_eq!(Mode::M.native_bits(), Channel::Mp030.native_value());
}

#[test]
fn a_dependent_mode_sets_the_bits_of_its_prerequisites() {
    let needs = [
        (Mode::S, Mode::M),
        (Mode::I, Mode::M),
        (Mode::LRA, Mode::S),
        (Mode::LRA, Mode::M),
        (Mode::SamplePeak, Mode::M),
        (Mode::TruePeak, Mode::SamplePeak),
        (Mode::TruePeak, Mode::M),
    ];
    for (mode, needed) in needs {
        let mask = encode_modes(&[mode]);
        assert_eq!(mask, mode.native_bits());
        assert_eq!(mask & needed.native_bits(), needed.native_bits());
    }
}

#[test]
fn a_mode_does_not_set_what_it_does_not_need() {
    let independent = [
        (Mode::M, Mode::S),
        (Mode::S, Mode::I),
        (Mode::I, Mode::S),
        (Mode::LRA, Mode::I),
        (Mode::SamplePeak, Mode::TruePeak),
        (Mode::TruePeak, Mode::S),
        (Mode::Histogram, Mode::M),
        (Mode::M, Mode::Histogram),
    ];
    for (mode, other) in independent {
        let mask = encode_modes(&[mode]);
        assert_ne!(mask & other.native_bits(), other.native_bits());
    }
}

#[test]
fn encode_modes_ors_the_native_bits() {
    assert_eq!(encode_modes(&[]), 0);
    assert_eq!(encode_modes(&[Mode::M]), 0x01);
    assert_eq!(encode_modes(&[Mode::S, Mode::I]), 0x07);
    assert_eq!(encode_modes(&[Mode::I, Mode::S]), 0x07);
    assert_eq!(encode_modes(&[Mode::LRA]), 0x0b);
    assert_eq!(encode_modes(&[Mode::TruePeak]), 0x31);
    assert_eq!(encode_modes(&[Mode::Histogram, Mode::M]), 0x41);
    assert_eq!(encode_modes(&[Mode::I, Mode::I, Mode::I]), 0x05);
    assert_eq!(encode_modes(&[Mode::I, Mode::LRA, Mode::TruePeak, Mode::Histogram]), 0x7f);
    assert_eq!(encode_modes(&MODES), 0x7f);
}
