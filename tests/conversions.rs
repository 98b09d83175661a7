use cult::device::{
    device_fmt_f32ne, device_fmt_s16ne,
    DEVICE_FMT_ALL, DEVICE_FMT_F32BE, DEVICE_FMT_F32LE, DEVICE_FMT_F32_MASK, DEVICE_FMT_S16BE,
    DEVICE_FMT_S16LE, DEVICE_FMT_S16_MASK, DEVICE_PREF_ALL, DEVICE_PREF_MULTIMEDIA,
    DEVICE_PREF_NOTIFICATION, DEVICE_PREF_VOICE,
};
use cult::ffi::{
    CUBEB_ERROR, CUBEB_ERROR_DEVICE_UNAVAILABLE, CUBEB_ERROR_INVALID_FORMAT,
    CUBEB_ERROR_INVALID_PARAMETER, CUBEB_ERROR_NOT_SUPPORTED, CUBEB_OK,
};
use cult::{
    check_status, layout_outcome, native_float32, native_signed16, state_message, status_value,
    ChannelLayout, DeviceFmt, DevicePref, DeviceState, DeviceType, Error, LogLevel, SampleFormat,
    State,
};

#[test]
fn error_codes_map_to_their_variants() {
    assert_eq!(Error::from(CUBEB_ERROR), Error::Undefined);
    assert_eq!(Error::from(CUBEB_ERROR_INVALID_FORMAT), Error::InvalidFormat);
    assert_eq!(Error::from(CUBEB_ERROR_INVALID_PARAMETER), Error::InvalidParameter);
    assert_eq!(Error::from(CUBEB_ERROR_NOT_SUPPORTED), Error::NotSupported);
    assert_eq!(Error::from(CUBEB_ERROR_DEVICE_UNAVAILABLE), Error::DeviceUnavailable);
}

#[test]
fn unknown_negative_codes_are_undefined() {
    assert_eq!(Error::from(-6), Error::Undefined);
    assert_eq!(Error::from(-1000), Error::Undefined);
    assert_eq!(Error::from(i32::MIN), Error::Undefined);
}

#[test]
fn status_zero_is_success() {
    assert_eq!(check_status(CUBEB_OK), Ok(()));
    assert_eq!(check_status(-3), Err(Error::InvalidParameter));
    assert_eq!(check_status(-5), Err(Error::DeviceUnavailable));
    assert_eq!(check_status(-77), Err(Error::Undefined));
}

#[test]
fn start_and_stop_outcomes_in_any_order_are_determinate() {
    // A stop without a start, repeated starts, repeated stops: each outcome is
    // the mapped status, and the same status always gives the same outcome.
    let statuses = [0, 0, -1, 0, -4, 0, 0];
    for &s in statuses.iter() {
        let first = check_status(s);
        let second = check_status(s);
        assert_eq!(first, second);
        if s == 0 {
            assert_eq!(first, Ok(()));
        } else {
            assert!(first.is_err());
        }
    }
}

#[test]
fn status_value_keeps_the_value_on_success() {
    assert_eq!(status_value(0, 48000u32), Ok(48000));
    assert_eq!(status_value(-4, 48000u32), Err(Error::NotSupported));
    assert_eq!(status_value(0, 12345u64), Ok(12345));
}

#[test]
fn native_formats_follow_host_byte_order() {
    let little = 1u16.to_ne_bytes() == 1u16.to_le_bytes();
    if little {
        assert_eq!(device_fmt_s16ne(), DEVICE_FMT_S16LE);
        assert_eq!(device_fmt_f32ne(), DEVICE_FMT_F32LE);
        assert_eq!(native_signed16(), SampleFormat::Signed16LE);
        assert_eq!(native_float32(), SampleFormat::Float32LE);
    } else {
        assert_eq!(device_fmt_s16ne(), DEVICE_FMT_S16BE);
        assert_eq!(device_fmt_f32ne(), DEVICE_FMT_F32BE);
        assert_eq!(native_signed16(), SampleFormat::Signed16BE);
        assert_eq!(native_float32(), SampleFormat::Float32BE);
    }
}

#[test]
fn sample_format_codes() {
    assert_eq!(u32::from(SampleFormat::Signed16LE), 0);
    assert_eq!(u32::from(SampleFormat::Signed16BE), 1);
    assert_eq!(u32::from(SampleFormat::Float32LE), 2);
    assert_eq!(u32::from(SampleFormat::Float32BE), 3);
    assert_eq!(SampleFormat::signed16(true), SampleFormat::Signed16LE);
    assert_eq!(SampleFormat::signed16(false), SampleFormat::Signed16BE);
    assert_eq!(SampleFormat::float32(true), SampleFormat::Float32LE);
    assert_eq!(SampleFormat::float32(false), SampleFormat::Float32BE);
}

#[test]
fn log_level_codes() {
    assert_eq!(u32::from(LogLevel::Disabled), 0);
    assert_eq!(u32::from(LogLevel::Normal), 1);
    assert_eq!(u32::from(LogLevel::Verbose), 2);
}

#[test]
fn channel_layout_codes_round_trip() {
    let all = [
        ChannelLayout::Undefined,
        ChannelLayout::DualMono,
        ChannelLayout::DualMono_LFE,
        ChannelLayout::Mono,
        ChannelLayout::Mono_LFE,
        ChannelLayout::Stereo,
        ChannelLayout::Stereo_LFE,
        ChannelLayout::F3,
        ChannelLayout::F3_LFE,
        ChannelLayout::F2_1,
        ChannelLayout::F2_1_LFE,
        ChannelLayout::F3_1,
        ChannelLayout::F3_1_LFE,
        ChannelLayout::F2_2,
        ChannelLayout::F2_2_LFE,
        ChannelLayout::F3_2,
        ChannelLayout::F3_2_LFE,
        ChannelLayout::F3_R3_LFE,
        ChannelLayout::F3_4_LFE,
        ChannelLayout::Max,
    ];
    for (i, &l) in all.iter().enumerate() {
        assert_eq!(u32::from(l), i as u32);
        assert_eq!(ChannelLayout::from(i as u32), l);
    }
}

#[test]
fn unknown_layout_codes_are_undefined() {
    assert_eq!(ChannelLayout::from(20), ChannelLayout::Undefined);
    assert_eq!(ChannelLayout::from(u32::MAX), ChannelLayout::Undefined);
}

#[test]
fn layout_outcome_maps_status_and_code() {
    assert_eq!(layout_outcome(0, 5), Ok(ChannelLayout::Stereo));
    assert_eq!(layout_outcome(0, 3), Ok(ChannelLayout::Mono));
    assert_eq!(layout_outcome(-4, 5), Err(Error::NotSupported));
}

#[test]
fn state_codes() {
    assert_eq!(State::from(0), State::Started);
    assert_eq!(State::from(1), State::Stopped);
    assert_eq!(State::from(2), State::Drained);
    assert_eq!(State::from(3), State::Error);
    assert_eq!(State::from(9), State::Error);
}

#[test]
fn state_messages() {
    assert_eq!(state_message(State::Started), "stream started");
    assert_eq!(state_message(State::Stopped), "stream stopped");
    assert_eq!(state_message(State::Drained), "stream drained");
    assert_eq!(state_message(State::Error), "stream error");
}

#[test]
fn device_type_codes() {
    assert_eq!(i32::from(DeviceType::Unknown), 0);
    assert_eq!(i32::from(DeviceType::Input), 1);
    assert_eq!(i32::from(DeviceType::Output), 2);
    assert_eq!(DeviceType::from(1), DeviceType::Input);
    assert_eq!(DeviceType::from(2), DeviceType::Output);
    assert_eq!(DeviceType::from(0), DeviceType::Unknown);
    assert_eq!(DeviceType::from(7), DeviceType::Unknown);
}

#[test]
fn device_state_codes() {
    assert_eq!(i32::from(DeviceState::Disabled), 0);
    assert_eq!(i32::from(DeviceState::Unplugged), 1);
    assert_eq!(i32::from(DeviceState::Enabled), 2);
    assert_eq!(DeviceState::from(1), DeviceState::Unplugged);
    assert_eq!(DeviceState::from(2), DeviceState::Enabled);
    assert_eq!(DeviceState::from(0), DeviceState::Disabled);
    assert_eq!(DeviceState::from(-1), DeviceState::Disabled);
}

#[test]
fn format_masks() {
    assert_eq!(DEVICE_FMT_S16_MASK, DEVICE_FMT_S16LE | DEVICE_FMT_S16BE);
    assert_eq!(DEVICE_FMT_F32_MASK, DEVICE_FMT_F32LE | DEVICE_FMT_F32BE);
    assert_eq!(DEVICE_FMT_ALL, 0x3030);
    let f = DeviceFmt::from_native(0x1010);
    assert_eq!(f.bits(), 0x1010);
    assert!(f.contains(DEVICE_FMT_S16LE));
    assert!(f.contains(DEVICE_FMT_F32LE));
    assert!(!f.contains(DEVICE_FMT_S16_MASK));
    assert!(f.intersects(DEVICE_FMT_S16_MASK));
    assert!(!f.intersects(DEVICE_FMT_F32BE));
}

#[test]
fn format_mask_keeps_low_sixteen_bits() {
    let f = DeviceFmt::from_native(0x0001_2010);
    assert_eq!(f.bits(), 0x2010);
    assert_eq!(DeviceFmt::from_bits(0x20).bits(), DEVICE_FMT_S16BE);
}

#[test]
fn preference_masks() {
    let p = DevicePref::from_native(0x0000_0105);
    assert_eq!(p.bits(), 0x05);
    assert!(p.contains(DEVICE_PREF_MULTIMEDIA));
    assert!(p.contains(DEVICE_PREF_NOTIFICATION));
    assert!(!p.contains(DEVICE_PREF_VOICE));
    assert!(!p.contains(DEVICE_PREF_ALL));
    assert!(!p.is_none());
    assert!(DevicePref::from_bits(0).is_none());
}
