use librespot_core::config::DeviceType as LSDeviceType;
use librespot_playback::config::AudioFormat as LSAudioFormat;
use librespot_playback::config::Bitrate as LSBitrate;
use spotifyd_config::backends::possible_backends;
use spotifyd_config::values::{AudioFormat, Bitrate, DeviceType, InvalidBitrate};

#[test]
fn numbers_stand_for_bitrates() {
    assert_eq!(Bitrate::from_kbps(96), Ok(Bitrate::Bitrate96));
    assert_eq!(Bitrate::from_kbps(160), Ok(Bitrate::Bitrate160));
    assert_eq!(Bitrate::from_kbps(320), Ok(Bitrate::Bitrate320));
}

#[test]
fn other_numbers_are_no_bitrates() {
    for value in [0u16, 95, 97, 128, 321, u16::MAX] {
        let err = Bitrate::from_kbps(value).unwrap_err();
        assert_eq!(err, InvalidBitrate { value });
        assert_eq!(err.expected(), "a bitrate: 96, 160, 320");
    }
}

#[test]
fn arguments_name_bitrates() {
    assert_eq!(Bitrate::possible_values(), ["96", "160", "320"]);
    assert_eq!(Bitrate::from_arg("96"), Some(Bitrate::Bitrate96));
    assert_eq!(Bitrate::from_arg("160"), Some(Bitrate::Bitrate160));
    assert_eq!(Bitrate::from_arg("320"), Some(Bitrate::Bitrate320));
    assert_eq!(Bitrate::from_arg(""), None);
    assert_eq!(Bitrate::from_arg("0160"), None);
    assert_eq!(Bitrate::from_arg(" 96"), None);
}

#[test]
fn arguments_and_numbers_agree() {
    for value in 0..=1000u16 {
        assert_eq!(Bitrate::from_arg(&value.to_string()), Bitrate::from_kbps(value).ok());
    }
}

#[test]
fn device_types_keep_their_names() {
    let pairs = [
        (DeviceType::Unknown, LSDeviceType::Unknown),
        (DeviceType::Computer, LSDeviceType::Computer),
        (DeviceType::Tablet, LSDeviceType::Tablet),
        (DeviceType::Smartphone, LSDeviceType::Smartphone),
        (DeviceType::Speaker, LSDeviceType::Speaker),
        (DeviceType::Tv, LSDeviceType::Tv),
        (DeviceType::Avr, LSDeviceType::Avr),
        (DeviceType::Stb, LSDeviceType::Stb),
        (DeviceType::AudioDongle, LSDeviceType::AudioDongle),
        (DeviceType::GameConsole, LSDeviceType::GameConsole),
        (DeviceType::CastAudio, LSDeviceType::CastAudio),
        (DeviceType::CastVideo, LSDeviceType::CastVideo),
        (DeviceType::Automobile, LSDeviceType::Automobile),
        (DeviceType::Smartwatch, LSDeviceType::Smartwatch),
        (DeviceType::Chromebook, LSDeviceType::Chromebook),
        (DeviceType::UnknownSpotify, LSDeviceType::UnknownSpotify),
        (DeviceType::CarThing, LSDeviceType::CarThing),
        (DeviceType::Observer, LSDeviceType::Observer),
        (DeviceType::HomeThing, LSDeviceType::HomeThing),
    ];
    for (own, librespot) in pairs {
        assert_eq!(LSDeviceType::from(own), librespot);
    }
}

#[test]
fn bitrates_keep_their_names() {
    assert_eq!(LSBitrate::from(Bitrate::Bitrate96), LSBitrate::Bitrate96);
    assert_eq!(LSBitrate::from(Bitrate::Bitrate160), LSBitrate::Bitrate160);
    assert_eq!(LSBitrate::from(Bitrate::Bitrate320), LSBitrate::Bitrate320);
}

#[test]
fn audio_formats_keep_their_names() {
    assert_eq!(LSAudioFormat::from(AudioFormat::F32), LSAudioFormat::F32);
    assert_eq!(LSAudioFormat::from(AudioFormat::S32), LSAudioFormat::S32);
    assert_eq!(LSAudioFormat::from(AudioFormat::S24), LSAudioFormat::S24);
    assert_eq!(LSAudioFormat::from(AudioFormat::S24_3), LSAudioFormat::S24_3);
    assert_eq!(LSAudioFormat::from(AudioFormat::S16), LSAudioFormat::S16);
}

#[test]
fn backends_are_those_of_librespot() {
    let names = possible_backends();
    let expected: Vec<&str> =
        librespot_playback::audio_backend::BACKENDS.iter().map(|b| b.0).collect();
    assert_eq!(names, expected);
    assert!(names.contains(&"pipe"));
    assert!(names.contains(&"subprocess"));
}
