//! The values that single settings take, and their counterparts in librespot.

use crate::text::same_text;
use librespot_core::config::DeviceType as LSDeviceType;
use librespot_playback::config::AudioFormat as LSAudioFormat;
use librespot_playback::config::Bitrate as LSBitrate;
use vstd::prelude::*;

verus! {

/// librespot's device types, with all their variants.
#[verifier::external_type_specification]
pub struct ExLSDeviceType(LSDeviceType);

/// librespot's bitrates, with all their variants.
#[verifier::external_type_specification]
pub struct ExLSBitrate(LSBitrate);

/// librespot's sample formats, with all their variants.
#[verifier::external_type_specification]
pub struct ExLSAudioFormat(LSAudioFormat);

/// What adjusts the volume.
#[derive(Clone, Copy, Debug, PartialEq, Eq, Structural)]
pub enum VolumeController {
    Alsa,
    AlsaLinear,
    SoftVolume,
    /// No volume control at all.
    Off,
}

/// The type of device that clients are shown.
#[derive(Clone, Copy, Debug, PartialEq, Eq, Structural)]
pub enum DeviceType {
    Unknown,
    Computer,
    Tablet,
    Smartphone,
    Speaker,
    Tv,
    Avr,
    Stb,
    AudioDongle,
    GameConsole,
    CastAudio,
    CastVideo,
    Automobile,
    Smartwatch,
    Chromebook,
    UnknownSpotify,
    CarThing,
    Observer,
    HomeThing,
}

/// The device type of the same name in librespot.
pub open spec fn librespot_device_type(item: DeviceType) -> LSDeviceType {
    match item {
        DeviceType::Unknown => LSDeviceType::Unknown,
        DeviceType::Computer => LSDeviceType::Computer,
        DeviceType::Tablet => LSDeviceType::Tablet,
        DeviceType::Smartphone => LSDeviceType::Smartphone,
        DeviceType::Speaker => LSDeviceType::Speaker,
        DeviceType::Tv => LSDeviceType::Tv,
        DeviceType::Avr => LSDeviceType::Avr,
        DeviceType::Stb => LSDeviceType::Stb,
        DeviceType::AudioDongle => LSDeviceType::AudioDongle,
        DeviceType::GameConsole => LSDeviceType::GameConsole,
        DeviceType::CastAudio => LSDeviceType::CastAudio,
        DeviceType::CastVideo => LSDeviceType::CastVideo,
        DeviceType::Automobile => LSDeviceType::Automobile,
        DeviceType::Smartwatch => LSDeviceType::Smartwatch,
        DeviceType::Chromebook => LSDeviceType::Chromebook,
        DeviceType::UnknownSpotify => LSDeviceType::UnknownSpotify,
        DeviceType::CarThing => LSDeviceType::CarThing,
        DeviceType::Observer => LSDeviceType::Observer,
        DeviceType::HomeThing => LSDeviceType::HomeThing,
    }
}

impl vstd::std_specs::convert::FromSpecImpl<DeviceType> for LSDeviceType {
    open spec fn obeys_from_spec() -> bool {
        true
    }

    open spec fn from_spec(item: DeviceType) -> Self {
        librespot_device_type(item)
    }
}

impl From<DeviceType> for LSDeviceType {
    fn from(item: DeviceType) -> (res: Self) {
        match item {
            DeviceType::Unknown => LSDeviceType::Unknown,
            DeviceType::Computer => LSDeviceType::Computer,
            DeviceType::Tablet => LSDeviceType::Tablet,
            DeviceType::Smartphone => LSDeviceType::Smartphone,
            DeviceType::Speaker => LSDeviceType::Speaker,
            DeviceType::Tv => LSDeviceType::Tv,
            DeviceType::Avr => LSDeviceType::Avr,
            DeviceType::Stb => LSDeviceType::Stb,
            DeviceType::AudioDongle => LSDeviceType::AudioDongle,
            DeviceType::GameConsole => LSDeviceType::GameConsole,
            DeviceType::CastAudio => LSDeviceType::CastAudio,
            DeviceType::CastVideo => LSDeviceType::CastVideo,
            DeviceType::Automobile => LSDeviceType::Automobile,
            DeviceType::Smartwatch => LSDeviceType::Smartwatch,
            DeviceType::Chromebook => LSDeviceType::Chromebook,
            DeviceType::UnknownSpotify => LSDeviceType::UnknownSpotify,
            DeviceType::CarThing => LSDeviceType::CarThing,
            DeviceType::Observer => LSDeviceType::Observer,
            DeviceType::HomeThing => LSDeviceType::HomeThing,
        }
    }
}

/// Spotify's audio bitrate.
#[derive(Clone, Copy, Debug, PartialEq, Eq, Structural)]
pub enum Bitrate {
    Bitrate96,
    Bitrate160,
    Bitrate320,
}

/// A number that is no bitrate Spotify offers.
#[derive(Clone, Copy, Debug, PartialEq, Eq, Structural)]
pub struct InvalidBitrate {
    pub value: u16,
}

impl Bitrate {
    /// The bitrate in kbit/s.
    pub open spec fn kbps(self) -> int {
        match self {
            Bitrate::Bitrate96 => 96,
            Bitrate::Bitrate160 => 160,
            Bitrate::Bitrate320 => 320,
        }
    }

    /// The bitrate as it is written on the command line.
    pub open spec fn arg_text(self) -> Seq<char> {
        match self {
            Bitrate::Bitrate96 => "96"@,
            Bitrate::Bitrate160 => "160"@,
            Bitrate::Bitrate320 => "320"@,
        }
    }

    /// The texts that the command line accepts for a bitrate.
    pub fn possible_values() -> (values: [&'static str; 3])
        ensures
            values@[0]@ == "96"@,
            values@[1]@ == "160"@,
            values@[2]@ == "320"@,
            values@[0]@ == Bitrate::Bitrate96.arg_text(),
            values@[1]@ == Bitrate::Bitrate160.arg_text(),
            values@[2]@ == Bitrate::Bitrate320.arg_text(),
    {
        ["96", "160", "320"]
    }

    /// The bitrate that a command line argument names, if it names one.
    pub fn from_arg(val: &str) -> (res: Option<Bitrate>)
        ensures
            forall|bitrate: Bitrate|
                res == Some(bitrate) <==> val@ == #[trigger] bitrate.arg_text(),
            res == Some(Bitrate::Bitrate96) <==> val@ == "96"@,
            res == Some(Bitrate::Bitrate160) <==> val@ == "160"@,
            res == Some(Bitrate::Bitrate320) <==> val@ == "320"@,
    {
        proof {
            law_bitrates_are_told_apart(Bitrate::Bitrate96, Bitrate::Bitrate160);
            law_bitrates_are_told_apart(Bitrate::Bitrate96, Bitrate::Bitrate320);
            law_bitrates_are_told_apart(Bitrate::Bitrate160, Bitrate::Bitrate320);
        }
        if same_text(val, "96") {
            Some(Bitrate::Bitrate96)
        } else if same_text(val, "160") {
            Some(Bitrate::Bitrate160)
        } else if same_text(val, "320") {
            Some(Bitrate::Bitrate320)
        } else {
            None
        }
    }

    /// The bitrate that a number in the configuration file stands for.
    pub fn from_kbps(value: u16) -> (res: Result<Bitrate, InvalidBitrate>)
        ensures
            value == 96 <==> res == Ok::<Bitrate, InvalidBitrate>(Bitrate::Bitrate96),
            value == 160 <==> res == Ok::<Bitrate, InvalidBitrate>(Bitrate::Bitrate160),
            value == 320 <==> res == Ok::<Bitrate, InvalidBitrate>(Bitrate::Bitrate320),
            res matches Ok(bitrate) ==> bitrate.kbps() == value,
            res matches Err(err) ==> err.value == value && forall|bitrate: Bitrate|
                #[trigger] bitrate.kbps() != value,
    {
        match value {
            96 => Ok(Bitrate::Bitrate96),
            160 => Ok(Bitrate::Bitrate160),
            320 => Ok(Bitrate::Bitrate320),
            x => Err(InvalidBitrate { value: x }),
        }
    }
}

impl InvalidBitrate {
    /// What was expected in place of the number.
    pub fn expected(&self) -> (text: &'static str)
        ensures
            text@ == "a bitrate: 96, 160, 320"@,
    {
        "a bitrate: 96, 160, 320"
    }
}

/// The bitrate of the same name in librespot.
pub open spec fn librespot_bitrate(bitrate: Bitrate) -> LSBitrate {
    match bitrate {
        Bitrate::Bitrate96 => LSBitrate::Bitrate96,
        Bitrate::Bitrate160 => LSBitrate::Bitrate160,
        Bitrate::Bitrate320 => LSBitrate::Bitrate320,
    }
}

impl vstd::std_specs::convert::FromSpecImpl<Bitrate> for LSBitrate {
    open spec fn obeys_from_spec() -> bool {
        true
    }

    open spec fn from_spec(bitrate: Bitrate) -> Self {
        librespot_bitrate(bitrate)
    }
}

impl From<Bitrate> for LSBitrate {
    fn from(bitrate: Bitrate) -> (res: Self) {
        match bitrate {
            Bitrate::Bitrate96 => LSBitrate::Bitrate96,
            Bitrate::Bitrate160 => LSBitrate::Bitrate160,
            Bitrate::Bitrate320 => LSBitrate::Bitrate320,
        }
    }
}

/// The message bus that the MPRIS interface is offered on.
#[derive(Clone, Copy, Debug, PartialEq, Eq, Structural)]
pub enum DBusType {
    Session,
    System,
}

/// The format of the samples that go to the audio backend.
#[derive(Clone, Copy, Debug, PartialEq, Eq, Structural)]
pub enum AudioFormat {
    F32,
    S32,
    S24,
    S24_3,
    S16,
}

/// The sample format of the same name in librespot.
pub open spec fn librespot_audio_format(audio_format: AudioFormat) -> LSAudioFormat {
    match audio_format {
        AudioFormat::F32 => LSAudioFormat::F32,
        AudioFormat::S32 => LSAudioFormat::S32,
        AudioFormat::S24 => LSAudioFormat::S24,
        AudioFormat::S24_3 => LSAudioFormat::S24_3,
        AudioFormat::S16 => LSAudioFormat::S16,
    }
}

impl vstd::std_specs::convert::FromSpecImpl<AudioFormat> for LSAudioFormat {
    open spec fn obeys_from_spec() -> bool {
        true
    }

    open spec fn from_spec(audio_format: AudioFormat) -> Self {
        librespot_audio_format(audio_format)
    }
}

impl From<AudioFormat> for LSAudioFormat {
    fn from(audio_format: AudioFormat) -> (res: Self) {
        match audio_format {
            AudioFormat::F32 => LSAudioFormat::F32,
            AudioFormat::S32 => LSAudioFormat::S32,
            AudioFormat::S24 => LSAudioFormat::S24,
            AudioFormat::S24_3 => LSAudioFormat::S24_3,
            AudioFormat::S16 => LSAudioFormat::S16,
        }
    }
}

/// The number that a text in decimal digits denotes.
pub open spec fn decimal(digits: Seq<char>) -> int
    decreases digits.len(),
{
    if digits.len() == 0 {
        0
    } else {
        10 * decimal(digits.drop_last()) + (digits.last() as int - '0' as int)
    }
}

/// The command line and the configuration file name a bitrate by the same number.
pub proof fn law_bitrate_texts_are_their_numbers(bitrate: Bitrate)
    ensures
        decimal(bitrate.arg_text()) == bitrate.kbps(),
{
    reveal_strlit("96");
    reveal_strlit("160");
    reveal_strlit("320");
    reveal_with_fuel(decimal, 4);
}

/// A number, and a text, name at most one bitrate.
pub proof fn law_bitrates_are_told_apart(a: Bitrate, b: Bitrate)
    ensures
        a.kbps() == b.kbps() ==> a == b,
        a.arg_text() == b.arg_text() ==> a == b,
{
    law_bitrate_texts_are_their_numbers(a);
    law_bitrate_texts_are_their_numbers(b);
}

/// librespot is handed different values for different settings.
pub proof fn law_librespot_values_are_told_apart(
    device_types: (DeviceType, DeviceType),
    bitrates: (Bitrate, Bitrate),
    formats: (AudioFormat, AudioFormat),
)
    ensures
        librespot_device_type(device_types.0) == librespot_device_type(device_types.1)
            ==> device_types.0 == device_types.1,
        librespot_bitrate(bitrates.0) == librespot_bitrate(bitrates.1) ==> bitrates.0
            == bitrates.1,
        librespot_audio_format(formats.0) == librespot_audio_format(formats.1) ==> formats.0
            == formats.1,
{
}

/// librespot's value has the same name as the setting that it stands for.
pub proof fn law_librespot_values_have_the_same_names(
    device_type: DeviceType,
    bitrate: Bitrate,
    audio_format: AudioFormat,
)
    ensures
        device_type is Unknown <==> librespot_device_type(device_type) is Unknown,
        device_type is Computer <==> librespot_device_type(device_type) is Computer,
        device_type is Tablet <==> librespot_device_type(device_type) is Tablet,
        device_type is Smartphone <==> librespot_device_type(device_type) is Smartphone,
        device_type is Speaker <==> librespot_device_type(device_type) is Speaker,
        device_type is Tv <==> librespot_device_type(device_type) is Tv,
        device_type is Avr <==> librespot_device_type(device_type) is Avr,
        device_type is Stb <==> librespot_device_type(device_type) is Stb,
        device_type is AudioDongle <==> librespot_device_type(device_type) is AudioDongle,
        device_type is GameConsole <==> librespot_device_type(device_type) is GameConsole,
        device_type is CastAudio <==> librespot_device_type(device_type) is CastAudio,
        device_type is CastVideo <==> librespot_device_type(device_type) is CastVideo,
        device_type is Automobile <==> librespot_device_type(device_type) is Automobile,
        device_type is Smartwatch <==> librespot_device_type(device_type) is Smartwatch,
        device_type is Chromebook <==> librespot_device_type(device_type) is Chromebook,
        device_type is UnknownSpotify <==> librespot_device_type(device_type) is UnknownSpotify,
        device_type is CarThing <==> librespot_device_type(device_type) is CarThing,
        device_type is Observer <==> librespot_device_type(device_type) is Observer,
        device_type is HomeThing <==> librespot_device_type(device_type) is HomeThing,
        bitrate is Bitrate96 <==> librespot_bitrate(bitrate) is Bitrate96,
        bitrate is Bitrate160 <==> librespot_bitrate(bitrate) is Bitrate160,
        bitrate is Bitrate320 <==> librespot_bitrate(bitrate) is Bitrate320,
        audio_format is F32 <==> librespot_audio_format(audio_format) is F32,
        audio_format is S32 <==> librespot_audio_format(audio_format) is S32,
        audio_format is S24 <==> librespot_audio_format(audio_format) is S24,
        audio_format is S24_3 <==> librespot_audio_format(audio_format) is S24_3,
        audio_format is S16 <==> librespot_audio_format(audio_format) is S16,
{
}

/// The bitrate of librespot in kbit/s.
pub open spec fn librespot_kbps(bitrate: LSBitrate) -> int {
    match bitrate {
        LSBitrate::Bitrate96 => 96,
        LSBitrate::Bitrate160 => 160,
        LSBitrate::Bitrate320 => 320,
    }
}

/// librespot is handed a bitrate of as many kbit/s as the setting asks for: 96, 160 or
/// 320, and no other.
pub proof fn law_bitrates_keep_their_numbers(bitrate: Bitrate)
    ensures
        librespot_kbps(librespot_bitrate(bitrate)) == bitrate.kbps(),
        bitrate is Bitrate96 <==> bitrate.kbps() == 96,
        bitrate is Bitrate160 <==> bitrate.kbps() == 160,
        bitrate is Bitrate320 <==> bitrate.kbps() == 320,
        bitrate is Bitrate96 ==> bitrate.arg_text() == "96"@,
        bitrate is Bitrate160 ==> bitrate.arg_text() == "160"@,
        bitrate is Bitrate320 ==> bitrate.arg_text() == "320"@,
{
}

} // verus!
