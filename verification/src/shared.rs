//! The settings that the command line and the configuration file share, and how
//! they are merged.

use crate::values::AudioFormat;
use crate::values::Bitrate;
use crate::values::DBusType;
use crate::values::DeviceType;
use crate::values::VolumeController;
use std::path::PathBuf;
use vstd::prelude::*;

verus! {

/// A gain in decibels, held as the bit pattern of an IEEE 754 double. No gain at all is
/// the pattern in which every bit is zero.
#[derive(Clone, Copy, Debug)]
pub struct Decibels {
    pub bits: u64,
}

impl Decibels {
    /// The bit pattern without the sign, which is its highest bit.
    pub open spec fn magnitude(self) -> int {
        self.bits as int % 0x8000_0000_0000_0000
    }

    /// Whether this is no number: the pattern lies beyond that of infinity.
    pub open spec fn is_nan(self) -> bool {
        self.magnitude() > 0x7ff0_0000_0000_0000
    }

    /// Whether two gains are equal as IEEE 754 numbers: what is no number equals
    /// nothing, and the two zeros equal each other.
    pub open spec fn same_number(self, other: Decibels) -> bool {
        &&& !self.is_nan()
        &&& !other.is_nan()
        &&& self.bits == other.bits || self.magnitude() == 0 && other.magnitude() == 0
    }
}

impl vstd::std_specs::cmp::PartialEqSpecImpl for Decibels {
    open spec fn obeys_eq_spec() -> bool {
        true
    }

    open spec fn eq_spec(&self, other: &Decibels) -> bool {
        self.same_number(*other)
    }
}

impl PartialEq for Decibels {
    fn eq(&self, other: &Decibels) -> (res: bool) {
        let own: u64 = self.bits % 0x8000_0000_0000_0000;
        let others: u64 = other.bits % 0x8000_0000_0000_0000;
        own <= 0x7ff0_0000_0000_0000 && others <= 0x7ff0_0000_0000_0000 && (self.bits
            == other.bits || own == 0 && others == 0)
    }
}

/// Settings of the MPRIS interface.
#[derive(Clone, Debug, PartialEq, Eq)]
pub struct MprisConfig {
    /// Whether the interface is offered.
    pub use_mpris: Option<bool>,
    /// The message bus that it is offered on.
    pub dbus_type: Option<DBusType>,
}

/// Settings of the ALSA mixer.
#[derive(Clone, Debug, PartialEq, Eq)]
pub struct AlsaConfig {
    /// The control device.
    pub control: Option<String>,
    /// The mixer.
    pub mixer: Option<String>,
}

/// All settings that may stand in a section of the configuration file; the command
/// line takes them too. Each one may be left open.
#[derive(Clone, Debug, PartialEq)]
pub struct SharedConfigValues {
    /// A script that is evaluated in the user's shell when the song changes.
    pub on_song_change_hook: Option<String>,
    /// Where credentials and music files are kept.
    pub cache_path: Option<PathBuf>,
    /// The largest size of the cache, in bytes.
    pub max_cache_size: Option<u64>,
    /// Whether music files are kept out of the cache.
    pub no_audio_cache: Option<bool>,
    /// The audio backend.
    pub backend: Option<String>,
    /// What adjusts the volume.
    pub volume_controller: Option<VolumeController>,
    /// The audio device, or the file that takes the place of one.
    pub device: Option<String>,
    /// The name under which clients see the device.
    pub device_name: Option<String>,
    /// The bitrate of the streamed audio.
    pub bitrate: Option<Bitrate>,
    /// The format of the samples.
    pub audio_format: Option<AudioFormat>,
    /// The volume to start with, in percent.
    pub initial_volume: Option<u8>,
    /// Whether all tracks are brought to the same volume.
    pub volume_normalisation: Option<bool>,
    /// A gain that is applied before normalisation.
    pub normalisation_pregain: Option<Decibels>,
    /// Whether the device stays hidden from the local network.
    pub disable_discovery: Option<bool>,
    /// The port on which the device is announced.
    pub zeroconf_port: Option<u16>,
    /// The proxy through which Spotify's servers are reached.
    pub proxy: Option<String>,
    /// The type of device that clients are shown.
    pub device_type: Option<DeviceType>,
    /// Whether similar songs follow when the music has ended.
    pub autoplay: Option<bool>,
    /// Settings of the ALSA mixer.
    pub alsa_config: AlsaConfig,
    /// Settings of the MPRIS interface.
    pub mpris_config: MprisConfig,
}

/// The sections of a configuration file.
#[derive(Debug)]
pub struct FileConfig {
    /// Settings for every program that reads the file.
    pub global: Option<SharedConfigValues>,
    /// Settings for the daemon alone.
    pub spotifyd: Option<SharedConfigValues>,
}

/// The first of two settings that is not open.
pub open spec fn first_set<T>(first: Option<T>, second: Option<T>) -> Option<T> {
    if first is Some {
        first
    } else {
        second
    }
}

/// The first of two settings that is not open.
fn first_of<T>(first: Option<T>, second: Option<T>) -> (res: Option<T>)
    ensures
        res == first_set(first, second),
{
    match first {
        Some(value) => Some(value),
        None => second,
    }
}

impl MprisConfig {
    /// The settings with every one left open.
    pub open spec fn unset() -> MprisConfig {
        MprisConfig { use_mpris: None, dbus_type: None }
    }

    /// These settings, with those of `other` where these are open.
    pub open spec fn merged_with(self, other: MprisConfig) -> MprisConfig {
        MprisConfig {
            use_mpris: first_set(self.use_mpris, other.use_mpris),
            dbus_type: first_set(self.dbus_type, other.dbus_type),
        }
    }
}

impl Default for MprisConfig {
    fn default() -> (res: Self)
        ensures
            res == MprisConfig::unset(),
    {
        MprisConfig { use_mpris: None, dbus_type: None }
    }
}

impl AlsaConfig {
    /// The settings with every one left open.
    pub open spec fn unset() -> AlsaConfig {
        AlsaConfig { control: None, mixer: None }
    }

    /// These settings, with those of `other` where these are open.
    pub open spec fn merged_with(self, other: AlsaConfig) -> AlsaConfig {
        AlsaConfig {
            control: first_set(self.control, other.control),
            mixer: first_set(self.mixer, other.mixer),
        }
    }
}

impl Default for AlsaConfig {
    fn default() -> (res: Self)
        ensures
            res == AlsaConfig::unset(),
    {
        AlsaConfig { control: None, mixer: None }
    }
}

impl SharedConfigValues {
    /// The settings with every one left open.
    pub open spec fn unset() -> SharedConfigValues {
        SharedConfigValues {
            on_song_change_hook: None,
            cache_path: None,
            max_cache_size: None,
            no_audio_cache: None,
            backend: None,
            volume_controller: None,
            device: None,
            device_name: None,
            bitrate: None,
            audio_format: None,
            initial_volume: None,
            volume_normalisation: None,
            normalisation_pregain: None,
            disable_discovery: None,
            zeroconf_port: None,
            proxy: None,
            device_type: None,
            autoplay: None,
            alsa_config: AlsaConfig::unset(),
            mpris_config: MprisConfig::unset(),
        }
    }

    /// These settings, with those of `other` where these are open.
    pub open spec fn merged_with(self, other: SharedConfigValues) -> SharedConfigValues {
        SharedConfigValues {
            on_song_change_hook: first_set(self.on_song_change_hook, other.on_song_change_hook),
            cache_path: first_set(self.cache_path, other.cache_path),
            max_cache_size: first_set(self.max_cache_size, other.max_cache_size),
            no_audio_cache: first_set(self.no_audio_cache, other.no_audio_cache),
            backend: first_set(self.backend, other.backend),
            volume_controller: first_set(self.volume_controller, other.volume_controller),
            device: first_set(self.device, other.device),
            device_name: first_set(self.device_name, other.device_name),
            bitrate: first_set(self.bitrate, other.bitrate),
            audio_format: first_set(self.audio_format, other.audio_format),
            initial_volume: first_set(self.initial_volume, other.initial_volume),
            volume_normalisation: first_set(self.volume_normalisation, other.volume_normalisation),
            normalisation_pregain: first_set(self.normalisation_pregain, other.normalisation_pregain),
            disable_discovery: first_set(self.disable_discovery, other.disable_discovery),
            zeroconf_port: first_set(self.zeroconf_port, other.zeroconf_port),
            proxy: first_set(self.proxy, other.proxy),
            device_type: first_set(self.device_type, other.device_type),
            autoplay: first_set(self.autoplay, other.autoplay),
            alsa_config: self.alsa_config.merged_with(other.alsa_config),
            mpris_config: self.mpris_config.merged_with(other.mpris_config),
        }
    }

    /// Takes from `other` every setting that is open here, and keeps the rest.
    pub fn merge_with(&mut self, other: SharedConfigValues)
        ensures
            *final(self) == old(self).merged_with(other),
            old(self).on_song_change_hook is Some ==> final(self).on_song_change_hook == old(self).on_song_change_hook,
            old(self).on_song_change_hook is None ==> final(self).on_song_change_hook == other.on_song_change_hook,
            old(self).cache_path is Some ==> final(self).cache_path == old(self).cache_path,
            old(self).cache_path is None ==> final(self).cache_path == other.cache_path,
            old(self).max_cache_size is Some ==> final(self).max_cache_size == old(self).max_cache_size,
            old(self).max_cache_size is None ==> final(self).max_cache_size == other.max_cache_size,
            old(self).no_audio_cache is Some ==> final(self).no_audio_cache == old(self).no_audio_cache,
            old(self).no_audio_cache is None ==> final(self).no_audio_cache == other.no_audio_cache,
            old(self).backend is Some ==> final(self).backend == old(self).backend,
            old(self).backend is None ==> final(self).backend == other.backend,
            old(self).volume_controller is Some ==> final(self).volume_controller == old(self).volume_controller,
            old(self).volume_controller is None ==> final(self).volume_controller == other.volume_controller,
            old(self).device is Some ==> final(self).device == old(self).device,
            old(self).device is None ==> final(self).device == other.device,
            old(self).device_name is Some ==> final(self).device_name == old(self).device_name,
            old(self).device_name is None ==> final(self).device_name == other.device_name,
            old(self).bitrate is Some ==> final(self).bitrate == old(self).bitrate,
            old(self).bitrate is None ==> final(self).bitrate == other.bitrate,
            old(self).audio_format is Some ==> final(self).audio_format == old(self).audio_format,
            old(self).audio_format is None ==> final(self).audio_format == other.audio_format,
            old(self).initial_volume is Some ==> final(self).initial_volume == old(self).initial_volume,
            old(self).initial_volume is None ==> final(self).initial_volume == other.initial_volume,
            old(self).volume_normalisation is Some ==> final(self).volume_normalisation == old(self).volume_normalisation,
            old(self).volume_normalisation is None ==> final(self).volume_normalisation == other.volume_normalisation,
            old(self).normalisation_pregain is Some ==> final(self).normalisation_pregain == old(self).normalisation_pregain,
            old(self).normalisation_pregain is None ==> final(self).normalisation_pregain == other.normalisation_pregain,
            old(self).disable_discovery is Some ==> final(self).disable_discovery == old(self).disable_discovery,
            old(self).disable_discovery is None ==> final(self).disable_discovery == other.disable_discovery,
            old(self).zeroconf_port is Some ==> final(self).zeroconf_port == old(self).zeroconf_port,
            old(self).zeroconf_port is None ==> final(self).zeroconf_port == other.zeroconf_port,
            old(self).proxy is Some ==> final(self).proxy == old(self).proxy,
            old(self).proxy is None ==> final(self).proxy == other.proxy,
            old(self).device_type is Some ==> final(self).device_type == old(self).device_type,
            old(self).device_type is None ==> final(self).device_type == other.device_type,
            old(self).autoplay is Some ==> final(self).autoplay == old(self).autoplay,
            old(self).autoplay is None ==> final(self).autoplay == other.autoplay,
            old(self).alsa_config.control is Some ==> final(self).alsa_config.control == old(self).alsa_config.control,
            old(self).alsa_config.control is None ==> final(self).alsa_config.control == other.alsa_config.control,
            old(self).alsa_config.mixer is Some ==> final(self).alsa_config.mixer == old(self).alsa_config.mixer,
            old(self).alsa_config.mixer is None ==> final(self).alsa_config.mixer == other.alsa_config.mixer,
            old(self).mpris_config.use_mpris is Some ==> final(self).mpris_config.use_mpris == old(self).mpris_config.use_mpris,
            old(self).mpris_config.use_mpris is None ==> final(self).mpris_config.use_mpris == other.mpris_config.use_mpris,
            old(self).mpris_config.dbus_type is Some ==> final(self).mpris_config.dbus_type == old(self).mpris_config.dbus_type,
            old(self).mpris_config.dbus_type is None ==> final(self).mpris_config.dbus_type == other.mpris_config.dbus_type,
    {
        self.backend = first_of(self.backend.take(), other.backend);
        self.volume_normalisation = first_of(self.volume_normalisation.take(), other.volume_normalisation);
        self.normalisation_pregain = first_of(self.normalisation_pregain.take(), other.normalisation_pregain);
        self.bitrate = first_of(self.bitrate.take(), other.bitrate);
        self.initial_volume = first_of(self.initial_volume.take(), other.initial_volume);
        self.device_name = first_of(self.device_name.take(), other.device_name);
        self.device = first_of(self.device.take(), other.device);
        self.volume_controller = first_of(self.volume_controller.take(), other.volume_controller);
        self.cache_path = first_of(self.cache_path.take(), other.cache_path);
        self.no_audio_cache = first_of(self.no_audio_cache.take(), other.no_audio_cache);
        self.on_song_change_hook = first_of(self.on_song_change_hook.take(), other.on_song_change_hook);
        self.disable_discovery = first_of(self.disable_discovery.take(), other.disable_discovery);
        self.zeroconf_port = first_of(self.zeroconf_port.take(), other.zeroconf_port);
        self.proxy = first_of(self.proxy.take(), other.proxy);
        self.device_type = first_of(self.device_type.take(), other.device_type);
        self.max_cache_size = first_of(self.max_cache_size.take(), other.max_cache_size);
        self.audio_format = first_of(self.audio_format.take(), other.audio_format);
        self.autoplay = first_of(self.autoplay.take(), other.autoplay);
        self.mpris_config.use_mpris = first_of(
            self.mpris_config.use_mpris.take(),
            other.mpris_config.use_mpris,
        );
        self.mpris_config.dbus_type = first_of(
            self.mpris_config.dbus_type.take(),
            other.mpris_config.dbus_type,
        );
        self.alsa_config.mixer = first_of(
            self.alsa_config.mixer.take(),
            other.alsa_config.mixer,
        );
        self.alsa_config.control = first_of(
            self.alsa_config.control.take(),
            other.alsa_config.control,
        );
    }
}

impl Default for SharedConfigValues {
    fn default() -> (res: Self)
        ensures
            res == SharedConfigValues::unset(),
    {
        SharedConfigValues {
            on_song_change_hook: None,
            cache_path: None,
            max_cache_size: None,
            no_audio_cache: None,
            backend: None,
            volume_controller: None,
            device: None,
            device_name: None,
            bitrate: None,
            audio_format: None,
            initial_volume: None,
            volume_normalisation: None,
            normalisation_pregain: None,
            disable_discovery: None,
            zeroconf_port: None,
            proxy: None,
            device_type: None,
            autoplay: None,
            alsa_config: AlsaConfig::default(),
            mpris_config: MprisConfig::default(),
        }
    }
}

impl FileConfig {
    /// The settings of the file: those for the daemon, with the global ones where
    /// the former are open; `None` where the file has neither section.
    pub open spec fn merged_sections(self) -> Option<SharedConfigValues> {
        match (self.global, self.spotifyd) {
            (Some(global), Some(spotifyd)) => Some(spotifyd.merged_with(global)),
            (Some(global), None) => Some(global),
            (None, spotifyd) => spotifyd,
        }
    }

    /// Merges the sections of the file. What is set for the daemon wins over what
    /// is set globally.
    pub fn get_merged_sections(self) -> (res: Option<SharedConfigValues>)
        ensures
            res == self.merged_sections(),
            self.global is None ==> res == self.spotifyd,
            self.spotifyd is None ==> res == self.global,
            self.global matches Some(global) ==> (self.spotifyd matches Some(spotifyd)
                ==> res == Some(spotifyd.merged_with(global))),
    {
        match (self.global, self.spotifyd) {
            (Some(global), Some(spotifyd)) => {
                let mut merged = spotifyd;
                merged.merge_with(global);
                Some(merged)
            },
            (Some(global), None) => Some(global),
            (None, spotifyd) => spotifyd,
        }
    }
}

impl Default for FileConfig {
    fn default() -> (res: Self)
        ensures
            res.global is None,
            res.spotifyd is None,
    {
        FileConfig { global: None, spotifyd: None }
    }
}

/// Merging with settings that are all open, on either side, changes nothing.
pub proof fn law_unset_is_neutral(values: SharedConfigValues)
    ensures
        values.merged_with(SharedConfigValues::unset()) == values,
        SharedConfigValues::unset().merged_with(values) == values,
{
}

/// Merging settings with themselves changes nothing.
pub proof fn law_merge_is_idempotent(values: SharedConfigValues)
    ensures
        values.merged_with(values) == values,
{
}

/// In which order three sources of settings are merged does not matter, as long as
/// their precedence stays the same.
pub proof fn law_merge_is_associative(
    first: SharedConfigValues,
    second: SharedConfigValues,
    third: SharedConfigValues,
)
    ensures
        first.merged_with(second).merged_with(third) == first.merged_with(
            second.merged_with(third),
        ),
{
}

/// Merging the same settings a second time changes nothing.
pub proof fn law_merge_twice_is_merge_once(values: SharedConfigValues, other: SharedConfigValues)
    ensures
        values.merged_with(other).merged_with(other) == values.merged_with(other),
{
    law_merge_is_associative(values, other, other);
    law_merge_is_idempotent(other);
}

/// What was set first stays: merging it again behind what came later changes nothing.
pub proof fn law_merge_keeps_what_was_set(values: SharedConfigValues, other: SharedConfigValues)
    ensures
        values.merged_with(other).merged_with(values) == values.merged_with(other),
{
}

/// A section of a file, or settings that are all open in place of one that is missing.
pub open spec fn section_or_unset(section: Option<SharedConfigValues>) -> SharedConfigValues {
    match section {
        Some(values) => values,
        None => SharedConfigValues::unset(),
    }
}

/// A missing section counts as one in which every setting is open.
pub proof fn law_missing_section_counts_as_unset(file: FileConfig)
    ensures
        section_or_unset(file.merged_sections()) == section_or_unset(file.spotifyd).merged_with(
            section_or_unset(file.global),
        ),
        file.merged_sections() is None <==> file.global is None && file.spotifyd is None,
{
}

/// Every single setting is merged by itself: if the first source sets it, it keeps that
/// very value, whatever the second source says; if the first leaves it open, it becomes
/// what the second source has.
pub proof fn law_merge_decides_each_setting_by_itself(
    first: SharedConfigValues,
    second: SharedConfigValues,
)
    ensures
        first.on_song_change_hook is Some ==> first.merged_with(second).on_song_change_hook == first.on_song_change_hook,
        first.on_song_change_hook is None ==> first.merged_with(second).on_song_change_hook == second.on_song_change_hook,
        first.cache_path is Some ==> first.merged_with(second).cache_path == first.cache_path,
        first.cache_path is None ==> first.merged_with(second).cache_path == second.cache_path,
        first.max_cache_size is Some ==> first.merged_with(second).max_cache_size == first.max_cache_size,
        first.max_cache_size is None ==> first.merged_with(second).max_cache_size == second.max_cache_size,
        first.no_audio_cache is Some ==> first.merged_with(second).no_audio_cache == first.no_audio_cache,
        first.no_audio_cache is None ==> first.merged_with(second).no_audio_cache == second.no_audio_cache,
        first.backend is Some ==> first.merged_with(second).backend == first.backend,
        first.backend is None ==> first.merged_with(second).backend == second.backend,
        first.volume_controller is Some ==> first.merged_with(second).volume_controller == first.volume_controller,
        first.volume_controller is None ==> first.merged_with(second).volume_controller == second.volume_controller,
        first.device is Some ==> first.merged_with(second).device == first.device,
        first.device is None ==> first.merged_with(second).device == second.device,
        first.device_name is Some ==> first.merged_with(second).device_name == first.device_name,
        first.device_name is None ==> first.merged_with(second).device_name == second.device_name,
        first.bitrate is Some ==> first.merged_with(second).bitrate == first.bitrate,
        first.bitrate is None ==> first.merged_with(second).bitrate == second.bitrate,
        first.audio_format is Some ==> first.merged_with(second).audio_format == first.audio_format,
        first.audio_format is None ==> first.merged_with(second).audio_format == second.audio_format,
        first.initial_volume is Some ==> first.merged_with(second).initial_volume == first.initial_volume,
        first.initial_volume is None ==> first.merged_with(second).initial_volume == second.initial_volume,
        first.volume_normalisation is Some ==> first.merged_with(second).volume_normalisation == first.volume_normalisation,
        first.volume_normalisation is None ==> first.merged_with(second).volume_normalisation == second.volume_normalisation,
        first.normalisation_pregain is Some ==> first.merged_with(second).normalisation_pregain == first.normalisation_pregain,
        first.normalisation_pregain is None ==> first.merged_with(second).normalisation_pregain == second.normalisation_pregain,
        first.disable_discovery is Some ==> first.merged_with(second).disable_discovery == first.disable_discovery,
        first.disable_discovery is None ==> first.merged_with(second).disable_discovery == second.disable_discovery,
        first.zeroconf_port is Some ==> first.merged_with(second).zeroconf_port == first.zeroconf_port,
        first.zeroconf_port is None ==> first.merged_with(second).zeroconf_port == second.zeroconf_port,
        first.proxy is Some ==> first.merged_with(second).proxy == first.proxy,
        first.proxy is None ==> first.merged_with(second).proxy == second.proxy,
        first.device_type is Some ==> first.merged_with(second).device_type == first.device_type,
        first.device_type is None ==> first.merged_with(second).device_type == second.device_type,
        first.autoplay is Some ==> first.merged_with(second).autoplay == first.autoplay,
        first.autoplay is None ==> first.merged_with(second).autoplay == second.autoplay,
        first.alsa_config.control is Some ==> first.merged_with(second).alsa_config.control == first.alsa_config.control,
        first.alsa_config.control is None ==> first.merged_with(second).alsa_config.control == second.alsa_config.control,
        first.alsa_config.mixer is Some ==> first.merged_with(second).alsa_config.mixer == first.alsa_config.mixer,
        first.alsa_config.mixer is None ==> first.merged_with(second).alsa_config.mixer == second.alsa_config.mixer,
        first.mpris_config.use_mpris is Some ==> first.merged_with(second).mpris_config.use_mpris == first.mpris_config.use_mpris,
        first.mpris_config.use_mpris is None ==> first.merged_with(second).mpris_config.use_mpris == second.mpris_config.use_mpris,
        first.mpris_config.dbus_type is Some ==> first.merged_with(second).mpris_config.dbus_type == first.mpris_config.dbus_type,
        first.mpris_config.dbus_type is None ==> first.merged_with(second).mpris_config.dbus_type == second.mpris_config.dbus_type,
{
}

/// A file with both sections: every single setting is the daemon's own where the daemon's
/// section sets it, and the global one where that section leaves it open.
pub proof fn law_daemon_section_comes_first(
    global: SharedConfigValues,
    spotifyd: SharedConfigValues,
)
    ensures
        (FileConfig { global: Some(global), spotifyd: Some(spotifyd) }).merged_sections() is Some,
        ({
            let merged = (FileConfig {
                global: Some(global),
                spotifyd: Some(spotifyd),
            }).merged_sections()->0;
            &&& spotifyd.on_song_change_hook is Some ==> merged.on_song_change_hook == spotifyd.on_song_change_hook
            &&& spotifyd.on_song_change_hook is None ==> merged.on_song_change_hook == global.on_song_change_hook
            &&& spotifyd.cache_path is Some ==> merged.cache_path == spotifyd.cache_path
            &&& spotifyd.cache_path is None ==> merged.cache_path == global.cache_path
            &&& spotifyd.max_cache_size is Some ==> merged.max_cache_size == spotifyd.max_cache_size
            &&& spotifyd.max_cache_size is None ==> merged.max_cache_size == global.max_cache_size
            &&& spotifyd.no_audio_cache is Some ==> merged.no_audio_cache == spotifyd.no_audio_cache
            &&& spotifyd.no_audio_cache is None ==> merged.no_audio_cache == global.no_audio_cache
            &&& spotifyd.backend is Some ==> merged.backend == spotifyd.backend
            &&& spotifyd.backend is None ==> merged.backend == global.backend
            &&& spotifyd.volume_controller is Some ==> merged.volume_controller == spotifyd.volume_controller
            &&& spotifyd.volume_controller is None ==> merged.volume_controller == global.volume_controller
            &&& spotifyd.device is Some ==> merged.device == spotifyd.device
            &&& spotifyd.device is None ==> merged.device == global.device
            &&& spotifyd.device_name is Some ==> merged.device_name == spotifyd.device_name
            &&& spotifyd.device_name is None ==> merged.device_name == global.device_name
            &&& spotifyd.bitrate is Some ==> merged.bitrate == spotifyd.bitrate
            &&& spotifyd.bitrate is None ==> merged.bitrate == global.bitrate
            &&& spotifyd.audio_format is Some ==> merged.audio_format == spotifyd.audio_format
            &&& spotifyd.audio_format is None ==> merged.audio_format == global.audio_format
            &&& spotifyd.initial_volume is Some ==> merged.initial_volume == spotifyd.initial_volume
            &&& spotifyd.initial_volume is None ==> merged.initial_volume == global.initial_volume
            &&& spotifyd.volume_normalisation is Some ==> merged.volume_normalisation == spotifyd.volume_normalisation
            &&& spotifyd.volume_normalisation is None ==> merged.volume_normalisation == global.volume_normalisation
            &&& spotifyd.normalisation_pregain is Some ==> merged.normalisation_pregain == spotifyd.normalisation_pregain
            &&& spotifyd.normalisation_pregain is None ==> merged.normalisation_pregain == global.normalisation_pregain
            &&& spotifyd.disable_discovery is Some ==> merged.disable_discovery == spotifyd.disable_discovery
            &&& spotifyd.disable_discovery is None ==> merged.disable_discovery == global.disable_discovery
            &&& spotifyd.zeroconf_port is Some ==> merged.zeroconf_port == spotifyd.zeroconf_port
            &&& spotifyd.zeroconf_port is None ==> merged.zeroconf_port == global.zeroconf_port
            &&& spotifyd.proxy is Some ==> merged.proxy == spotifyd.proxy
            &&& spotifyd.proxy is None ==> merged.proxy == global.proxy
            &&& spotifyd.device_type is Some ==> merged.device_type == spotifyd.device_type
            &&& spotifyd.device_type is None ==> merged.device_type == global.device_type
            &&& spotifyd.autoplay is Some ==> merged.autoplay == spotifyd.autoplay
            &&& spotifyd.autoplay is None ==> merged.autoplay == global.autoplay
            &&& spotifyd.alsa_config.control is Some ==> merged.alsa_config.control == spotifyd.alsa_config.control
            &&& spotifyd.alsa_config.control is None ==> merged.alsa_config.control == global.alsa_config.control
            &&& spotifyd.alsa_config.mixer is Some ==> merged.alsa_config.mixer == spotifyd.alsa_config.mixer
            &&& spotifyd.alsa_config.mixer is None ==> merged.alsa_config.mixer == global.alsa_config.mixer
            &&& spotifyd.mpris_config.use_mpris is Some ==> merged.mpris_config.use_mpris == spotifyd.mpris_config.use_mpris
            &&& spotifyd.mpris_config.use_mpris is None ==> merged.mpris_config.use_mpris == global.mpris_config.use_mpris
            &&& spotifyd.mpris_config.dbus_type is Some ==> merged.mpris_config.dbus_type == spotifyd.mpris_config.dbus_type
            &&& spotifyd.mpris_config.dbus_type is None ==> merged.mpris_config.dbus_type == global.mpris_config.dbus_type
        }),
{
}

/// A file with at most one section is that section.
pub proof fn law_lone_section_is_kept(section: SharedConfigValues)
    ensures
        (FileConfig { global: Some(section), spotifyd: None }).merged_sections() == Some(section),
        (FileConfig { global: None, spotifyd: Some(section) }).merged_sections() == Some(section),
        (FileConfig { global: None, spotifyd: None }).merged_sections() is None,
{
}

/// Where settings are unset, every single one is open.
pub proof fn law_unset_leaves_everything_open()
    ensures
        SharedConfigValues::unset().on_song_change_hook is None,
        SharedConfigValues::unset().cache_path is None,
        SharedConfigValues::unset().max_cache_size is None,
        SharedConfigValues::unset().no_audio_cache is None,
        SharedConfigValues::unset().backend is None,
        SharedConfigValues::unset().volume_controller is None,
        SharedConfigValues::unset().device is None,
        SharedConfigValues::unset().device_name is None,
        SharedConfigValues::unset().bitrate is None,
        SharedConfigValues::unset().audio_format is None,
        SharedConfigValues::unset().initial_volume is None,
        SharedConfigValues::unset().volume_normalisation is None,
        SharedConfigValues::unset().normalisation_pregain is None,
        SharedConfigValues::unset().disable_discovery is None,
        SharedConfigValues::unset().zeroconf_port is None,
        SharedConfigValues::unset().proxy is None,
        SharedConfigValues::unset().device_type is None,
        SharedConfigValues::unset().autoplay is None,
        SharedConfigValues::unset().alsa_config.control is None,
        SharedConfigValues::unset().alsa_config.mixer is None,
        SharedConfigValues::unset().mpris_config.use_mpris is None,
        SharedConfigValues::unset().mpris_config.dbus_type is None,
{
}

/// Gains compare as IEEE 754 prescribes: a pattern beyond either infinity is no number and
/// equals nothing, not even itself; all other patterns equal themselves, and the patterns
/// of the two zeros equal each other; nothing else is equal.
pub proof fn law_gains_compare_as_numbers(a: Decibels, b: Decibels)
    ensures
        0x7ff0_0000_0000_0000 < a.bits < 0x8000_0000_0000_0000 ==> !a.same_number(b)
            && !b.same_number(a),
        0xfff0_0000_0000_0000 < a.bits ==> !a.same_number(b) && !b.same_number(a),
        a.bits <= 0x7ff0_0000_0000_0000 ==> a.same_number(a),
        0x8000_0000_0000_0000 <= a.bits <= 0xfff0_0000_0000_0000 ==> a.same_number(a),
        a.bits == 0 && b.bits == 0x8000_0000_0000_0000 ==> a.same_number(b) && b.same_number(a),
        a.same_number(b) && a.bits != b.bits ==> (a.bits == 0 || a.bits
            == 0x8000_0000_0000_0000) && (b.bits == 0 || b.bits == 0x8000_0000_0000_0000),
{
}

} // verus!
