//! The configuration that the daemon runs with: every setting that was left open is
//! filled in here.

use crate::cli::CliConfig;
use crate::device_id::device_id;
use crate::device_id::hex_text;
use crate::device_id::sha1_digest;
use crate::host::host_name;
use crate::host::is_host_name;
use crate::paths;
use crate::paths::cache_dir_of;
use crate::paths::is_daemon_dirs_outcome;
use crate::paths::is_project_dirs_outcome;
use crate::paths::path_text;
use crate::paths::project_cache_dir;
use crate::proxy::parsed_url;
use crate::proxy::proxy_of_parsed;
use crate::proxy::select_proxy;
use crate::proxy::url_scheme;
use crate::shared::AlsaConfig;
use crate::shared::Decibels;
use crate::shared::MprisConfig;
use crate::shared::SharedConfigValues;
use crate::text::blank;
use crate::text::is_blank;
use crate::text::is_white_space;
use crate::values::librespot_audio_format;
use crate::values::librespot_bitrate;
use crate::values::librespot_device_type;
use crate::values::librespot_kbps;
use crate::values::AudioFormat;
use crate::values::Bitrate;
use crate::values::DeviceType;
use crate::values::VolumeController;
use directories::ProjectDirs;
use librespot_core::config::DeviceType as LSDeviceType;
use librespot_playback::config::AudioFormat as LSAudioFormat;
use librespot_playback::config::Bitrate as LSBitrate;
use std::path::PathBuf;
use url::Url;
use vstd::prelude::*;
use vstd::utf8::encode_utf8;

verus! {

/// What the environment contributes to the configuration.
pub struct Surroundings {
    /// The directory for the cache, where one could be determined.
    pub cache_dir: Option<PathBuf>,
    /// The name of the machine.
    pub host_name: String,
    /// The user's shell, where it could be identified.
    pub shell: Option<String>,
}

impl Surroundings {
    /// Whether these can be the surroundings in which `config` is filled in for a user
    /// with this shell: what the settings leave to the environment, the cache directory
    /// and the name of the machine, is what asking for it can come to.
    pub open spec fn can_occur(self, config: CliConfig, shell: Option<String>) -> bool {
        &&& self.shell == shell
        &&& config.shared_config.cache_path is None ==> exists|dirs: Option<ProjectDirs>|
            #[trigger]
            is_daemon_dirs_outcome(dirs) && self.cache_dir == cache_dir_of(dirs)
        &&& !has_usable_name(config.shared_config.device_name) ==> is_host_name(self.host_name@)
    }
}

/// How the cache is set up.
pub struct CacheSettings {
    /// The directory that holds the cache.
    pub path: PathBuf,
    /// Whether music files are kept there.
    pub audio: bool,
    /// The largest size of the cache, in bytes.
    pub size_limit: Option<u64>,
}

/// The directories that the cache is opened with.
pub struct CachePaths {
    pub credentials: Option<PathBuf>,
    pub volume: Option<PathBuf>,
    pub audio: Option<PathBuf>,
}

impl CacheSettings {
    /// The directories that the cache is opened with.
    pub open spec fn paths(self) -> CachePaths {
        CachePaths {
            credentials: Some(self.path),
            volume: Some(self.path),
            audio: if self.audio {
                Some(self.path)
            } else {
                None
            },
        }
    }

    /// Where credentials are kept.
    pub fn credentials_path(&self) -> (res: Option<&PathBuf>)
        ensures
            res is Some == self.paths().credentials is Some,
            res matches Some(path) ==> Some(*path) == self.paths().credentials,
            res == Some(&self.path),
    {
        Some(&self.path)
    }

    /// Where the volume is kept.
    pub fn volume_path(&self) -> (res: Option<&PathBuf>)
        ensures
            res is Some == self.paths().volume is Some,
            res matches Some(path) ==> Some(*path) == self.paths().volume,
            res == Some(&self.path),
    {
        Some(&self.path)
    }

    /// Where music files are kept, if they are.
    pub fn audio_path(&self) -> (res: Option<&PathBuf>)
        ensures
            res is Some == self.paths().audio is Some,
            res matches Some(path) ==> Some(*path) == self.paths().audio,
            res == if self.audio {
                Some(&self.path)
            } else {
                None
            },
    {
        if self.audio {
            Some(&self.path)
        } else {
            None
        }
    }
}

/// The kinds of dither that samples are treated with.
#[derive(Clone, Copy, Debug, PartialEq, Eq, Structural)]
pub enum Ditherer {
    Triangular,
}

/// Settings of the player.
pub struct PlayerSettings {
    pub bitrate: LSBitrate,
    pub normalisation: bool,
    pub normalisation_pregain_db: Decibels,
    pub gapless: bool,
    pub ditherer: Option<Ditherer>,
}

/// Settings of the session with Spotify's servers.
pub struct SessionSettings {
    pub autoplay: Option<bool>,
    pub device_id: String,
    pub proxy: Option<Url>,
    pub ap_port: Option<u16>,
}

/// The configuration that the daemon runs with.
pub struct SpotifydConfig {
    pub cache: Option<CacheSettings>,
    pub backend: Option<String>,
    pub audio_device: Option<String>,
    pub audio_format: LSAudioFormat,
    pub volume_controller: VolumeController,
    pub initial_volume: Option<u16>,
    pub device_name: String,
    pub player_config: PlayerSettings,
    pub session_config: SessionSettings,
    pub onevent: Option<String>,
    pub pid: Option<String>,
    pub shell: String,
    pub discovery: bool,
    pub zeroconf_port: Option<u16>,
    pub device_type: LSDeviceType,
    pub mpris: MprisConfig,
    pub alsa_config: AlsaConfig,
}

/// The cache settings: the configured directory, or else the one that the
/// environment provides. Without either there is no cache.
pub open spec fn cache_settings_of(
    shared: SharedConfigValues,
    cache_dir: Option<PathBuf>,
) -> Option<CacheSettings> {
    let path = if shared.cache_path is Some {
        shared.cache_path
    } else {
        cache_dir
    };
    match path {
        Some(path) => Some(
            CacheSettings {
                path,
                audio: shared.no_audio_cache != Some(true),
                size_limit: shared.max_cache_size,
            },
        ),
        None => None,
    }
}

/// The volume that stands for a percentage: that share of the largest volume,
/// rounded down. A number above 100 is no percentage, and is dropped.
pub open spec fn volume_of_percent(percent: Option<u8>) -> Option<u16> {
    match percent {
        Some(percent) => if percent <= 100 {
            Some((percent * 0xffff / 100) as u16)
        } else {
            None
        },
        None => None,
    }
}

/// Whether a configured name can serve as the device's name: there is one, and it is
/// not blank.
pub open spec fn has_usable_name(configured: Option<String>) -> bool {
    configured matches Some(name) && !is_blank(name@)
}

/// The device's name: the configured one, unless it is blank, or else one made of
/// the name of the machine.
pub open spec fn device_name_of(configured: Option<String>, host_name: Seq<char>) -> Seq<char> {
    match configured {
        Some(name) => if is_blank(name@) {
            "Spotifyd@"@ + host_name
        } else {
            name@
        },
        None => "Spotifyd@"@ + host_name,
    }
}

/// The dither for a sample format: triangular for integers of at most 24 bits, none
/// for the wider formats.
pub open spec fn ditherer_of(audio_format: LSAudioFormat) -> Option<Ditherer> {
    match audio_format {
        LSAudioFormat::S16 | LSAudioFormat::S24 | LSAudioFormat::S24_3 => Some(
            Ditherer::Triangular,
        ),
        _ => None,
    }
}

/// The proxy that a setting asks for, if it can be used.
pub open spec fn proxy_of(setting: Option<String>) -> Option<Url> {
    match setting {
        Some(text) => match proxy_of_parsed(parsed_url(text@)) {
            Ok(url) => Some(url),
            Err(_) => None,
        },
        None => None,
    }
}

impl CliConfig {
    /// Whether the path of the PID file, if there is one, is valid Unicode.
    pub open spec fn has_unicode_pid(self) -> bool {
        self.pid matches Some(path) ==> path_text(path) is Some
    }
}

impl SpotifydConfig {
    /// Whether this is the configuration that follows from the settings in `config`
    /// and from the surroundings.
    pub open spec fn resolves(self, config: CliConfig, surroundings: Surroundings) -> bool {
        let shared = config.shared_config;
        &&& self.cache == cache_settings_of(shared, surroundings.cache_dir)
        &&& self.backend == shared.backend
        &&& self.audio_device == shared.device
        &&& self.audio_format == librespot_audio_format(shared.audio_format.unwrap_or(
            AudioFormat::S16,
        ))
        &&& self.volume_controller == shared.volume_controller.unwrap_or(
            VolumeController::SoftVolume,
        )
        &&& self.initial_volume == volume_of_percent(shared.initial_volume)
        &&& self.device_name@ == device_name_of(shared.device_name, surroundings.host_name@)
        &&& self.player_config.bitrate == librespot_bitrate(shared.bitrate.unwrap_or(
            Bitrate::Bitrate160,
        ))
        &&& self.player_config.normalisation == shared.volume_normalisation.unwrap_or(false)
        &&& self.player_config.normalisation_pregain_db == shared.normalisation_pregain.unwrap_or(
            Decibels { bits: 0 },
        )
        &&& self.player_config.gapless
        &&& self.player_config.ditherer == ditherer_of(self.audio_format)
        &&& self.session_config.autoplay == shared.autoplay
        &&& self.session_config.device_id@ == hex_text(
            sha1_digest(encode_utf8(self.device_name@)),
        )
        &&& self.session_config.proxy == proxy_of(shared.proxy)
        &&& self.session_config.ap_port == Some(443u16)
        &&& self.onevent == shared.on_song_change_hook
        &&& match config.pid {
            Some(path) => self.pid matches Some(text) && Some(text@) == path_text(path),
            None => self.pid is None,
        }
        &&& match surroundings.shell {
            Some(shell) => self.shell == shell,
            None => self.shell@ == "sh"@,
        }
        &&& self.discovery == !shared.disable_discovery.unwrap_or(false)
        &&& self.zeroconf_port == shared.zeroconf_port
        &&& self.device_type == librespot_device_type(shared.device_type.unwrap_or(
            DeviceType::Speaker,
        ))
        &&& self.mpris == shared.mpris_config
        &&& self.alsa_config == shared.alsa_config
    }
}

/// The volume to start with.
pub fn initial_volume(percent: Option<u8>) -> (res: Option<u16>)
    ensures
        res == volume_of_percent(percent),
        percent is None ==> res is None,
        percent matches Some(p) ==> {
            &&& p > 100 ==> res is None
            &&& p <= 100 ==> (res matches Some(v) && 100 * v <= 65535 * p < 100 * (v
                + 1))
        },
{
    match percent {
        Some(volume) => {
            if volume <= 100 {
                Some((volume as i32 * (u16::MAX as i32) / 100) as u16)
            } else {
                None
            }
        },
        None => None,
    }
}

/// Whether a configured name can serve as the device's name.
fn is_usable_name(configured: &Option<String>) -> (res: bool)
    ensures
        res == has_usable_name(*configured),
{
    match configured {
        Some(name) => !blank(name.as_str()),
        None => false,
    }
}

/// The device's name.
pub fn device_name(configured: Option<String>, host_name: &str) -> (name: String)
    ensures
        name@ == device_name_of(configured, host_name@),
        configured matches Some(given) ==> (exists|i: int|
            0 <= i < given@.len() && !is_white_space(#[trigger] given@[i])) ==> name@ == given@,
        configured matches Some(given) ==> (forall|i: int|
            0 <= i < given@.len() ==> is_white_space(#[trigger] given@[i])) ==> name@
            == "Spotifyd@"@ + host_name@,
        configured is None ==> name@ == "Spotifyd@"@ + host_name@,
{
    if is_usable_name(&configured) {
        configured.unwrap()
    } else {
        let mut name = "Spotifyd@".to_owned();
        name.append(host_name);
        name
    }
}

/// The dither for a sample format, chosen the same way librespot does.
pub fn ditherer(audio_format: LSAudioFormat) -> (res: Option<Ditherer>)
    ensures
        res == ditherer_of(audio_format),
        audio_format is S16 ==> res == Some(Ditherer::Triangular),
        audio_format is S24 ==> res == Some(Ditherer::Triangular),
        audio_format is S24_3 ==> res == Some(Ditherer::Triangular),
        audio_format is S32 ==> res is None,
        audio_format is F32 ==> res is None,
        audio_format is F64 ==> res is None,
{
    match audio_format {
        LSAudioFormat::S16 | LSAudioFormat::S24 | LSAudioFormat::S24_3 => Some(
            Ditherer::Triangular,
        ),
        _ => None,
    }
}

/// The text of the path of the PID file.
fn pid_text(pid: Option<PathBuf>) -> (res: Option<String>)
    requires
        pid matches Some(path) ==> path_text(path) is Some,
    ensures
        match pid {
            Some(path) => res matches Some(text) && Some(text@) == path_text(path),
            None => res is None,
        },
{
    match pid {
        Some(path) => Some(paths::to_str(&path).unwrap().to_owned()),
        None => None,
    }
}

/// Fills in every setting that `config` leaves open, given the surroundings.
pub fn resolve_config(config: CliConfig, surroundings: Surroundings) -> (res: SpotifydConfig)
    requires
        config.has_unicode_pid(),
    ensures
        res.resolves(config, surroundings),
        config.shared_config.bitrate == Some(Bitrate::Bitrate96) ==> res.player_config.bitrate
            is Bitrate96,
        config.shared_config.bitrate == Some(Bitrate::Bitrate160) ==> res.player_config.bitrate
            is Bitrate160,
        config.shared_config.bitrate == Some(Bitrate::Bitrate320) ==> res.player_config.bitrate
            is Bitrate320,
        config.shared_config.bitrate is None ==> res.player_config.bitrate is Bitrate160,
        res.cache matches Some(cache) ==> cache.size_limit == config.shared_config.max_cache_size,
        res.cache matches Some(cache) ==> (cache.audio <==> config.shared_config.no_audio_cache != Some(
            true,
        )),
        config.shared_config.cache_path matches Some(path) ==> res.cache matches Some(cache)
            && cache.path == path,
        config.shared_config.cache_path is None ==> (res.cache is Some <==> surroundings.cache_dir is Some),
        config.shared_config.cache_path is None ==> (surroundings.cache_dir matches Some(dir)
            ==> res.cache matches Some(cache) && cache.path == dir),
{
    let shared = config.shared_config;
    let audio_cache = !shared.no_audio_cache.unwrap_or(false);
    let size_limit = shared.max_cache_size;
    let cache_path = match shared.cache_path {
        Some(path) => Some(path),
        None => surroundings.cache_dir,
    };
    let cache = match cache_path {
        Some(path) => Some(CacheSettings { path, audio: audio_cache, size_limit }),
        None => None,
    };

    let bitrate: LSBitrate = LSBitrate::from(shared.bitrate.unwrap_or(Bitrate::Bitrate160));
    let audio_format: LSAudioFormat = LSAudioFormat::from(
        shared.audio_format.unwrap_or(AudioFormat::S16),
    );
    let volume_controller = shared.volume_controller.unwrap_or(VolumeController::SoftVolume);
    let initial_volume = initial_volume(shared.initial_volume);
    let device_name = device_name(shared.device_name, surroundings.host_name.as_str());
    let device_id = device_id(device_name.as_str());
    let normalisation_pregain = shared.normalisation_pregain.unwrap_or(Decibels { bits: 0 });
    let device_type = LSDeviceType::from(shared.device_type.unwrap_or(DeviceType::Speaker));
    let pid = pid_text(config.pid);
    let shell = match surroundings.shell {
        Some(shell) => shell,
        None => "sh".to_owned(),
    };
    let proxy_url = match select_proxy(&shared.proxy) {
        Ok(proxy) => proxy,
        Err(_) => None,
    };

    let player_config = PlayerSettings {
        bitrate,
        normalisation: shared.volume_normalisation.unwrap_or(false),
        normalisation_pregain_db: normalisation_pregain,
        gapless: true,
        ditherer: ditherer(audio_format),
    };

    SpotifydConfig {
        cache,
        backend: shared.backend,
        audio_device: shared.device,
        audio_format,
        volume_controller,
        initial_volume,
        device_name,
        player_config,
        session_config: SessionSettings {
            autoplay: shared.autoplay,
            device_id,
            proxy: proxy_url,
            ap_port: Some(443),
        },
        onevent: shared.on_song_change_hook,
        pid,
        shell,
        discovery: !shared.disable_discovery.unwrap_or(false),
        zeroconf_port: shared.zeroconf_port,
        device_type,
        mpris: shared.mpris_config,
        alsa_config: shared.alsa_config,
    }
}

/// Fills in every setting that `config` leaves open. The environment is asked only
/// for what the settings do not decide.
pub fn get_internal_config(config: CliConfig, shell: Option<String>) -> (res: SpotifydConfig)
    requires
        config.has_unicode_pid(),
    ensures
        exists|surroundings: Surroundings| #[trigger]
            res.resolves(config, surroundings) && surroundings.can_occur(config, shell),
{
    let cache_dir = if config.shared_config.cache_path.is_some() {
        None
    } else {
        paths::cache_dir_in(paths::daemon_dirs())
    };
    let host_name = if is_usable_name(&config.shared_config.device_name) {
        String::new()
    } else {
        host_name()
    };
    let surroundings = Surroundings { cache_dir, host_name, shell };
    resolve_config(config, surroundings)
}

/// Fills in every setting that `config` leaves open, provided that the path of the PID
/// file is valid Unicode; `None` where it is not.
pub fn try_get_internal_config(config: CliConfig, shell: Option<String>) -> (res: Option<
    SpotifydConfig,
>)
    ensures
        res is Some == config.has_unicode_pid(),
        res is None <==> (config.pid matches Some(path) && path_text(path) is None),
        res matches Some(internal) ==> exists|surroundings: Surroundings| #[trigger]
            internal.resolves(config, surroundings) && surroundings.can_occur(config, shell),
{
    if let Some(path) = &config.pid {
        if paths::to_str(path).is_none() {
            return None;
        }
    }
    Some(get_internal_config(config, shell))
}

/// Louder percentages give louder volumes, from silence at 0 to the largest volume at
/// 100.
pub proof fn law_volume_grows_with_percent(low: u8, high: u8)
    requires
        low < high <= 100,
    ensures
        volume_of_percent(Some(low)) matches Some(quiet) && volume_of_percent(
            Some(high),
        ) matches Some(loud) && quiet < loud,
        low == 0 ==> volume_of_percent(Some(low)) == Some(0u16),
        high == 100 ==> volume_of_percent(Some(high)) == Some(u16::MAX),
{
}

/// A device always has a name that can be read: it is never blank.
pub proof fn law_device_name_is_never_blank(configured: Option<String>, host_name: Seq<char>)
    ensures
        !is_blank(device_name_of(configured, host_name)),
{
    reveal_strlit("Spotifyd@");
    let made = "Spotifyd@"@ + host_name;
    assert(made[0] == 'S');
    assert(!is_blank(made));
}

/// What the environment says of the cache directory and of the machine's name has no
/// effect where the settings name a directory and a device.
pub proof fn law_settings_win_over_surroundings(
    config: CliConfig,
    here: Surroundings,
    there: Surroundings,
    internal: SpotifydConfig,
)
    requires
        internal.resolves(config, here),
        config.shared_config.cache_path is Some,
        has_usable_name(config.shared_config.device_name),
        here.shell == there.shell,
    ensures
        internal.resolves(config, there),
{
}

/// Devices of the same name have the same identifier, whatever else is configured.
pub proof fn law_device_id_follows_the_name(
    config: CliConfig,
    surroundings: Surroundings,
    internal: SpotifydConfig,
    other_config: CliConfig,
    other_surroundings: Surroundings,
    other_internal: SpotifydConfig,
)
    requires
        internal.resolves(config, surroundings),
        other_internal.resolves(other_config, other_surroundings),
        internal.device_name@ == other_internal.device_name@,
    ensures
        internal.session_config.device_id@ == other_internal.session_config.device_id@,
{
}

/// Whatever proxy is used, it was asked for, and its scheme is `http`.
pub proof fn law_only_http_proxies_are_used(setting: Option<String>)
    ensures
        proxy_of(setting) matches Some(url) ==> setting is Some && url_scheme(url) == "http"@,
{
}

/// A percentage gives the volume that is its share of the largest one, 65535, rounded
/// down; what is above 100 gives none.
pub proof fn law_volume_is_the_share_of_the_largest(percent: Option<u8>)
    ensures
        percent is None ==> volume_of_percent(percent) is None,
        percent matches Some(p) ==> {
            &&& p > 100 ==> volume_of_percent(percent) is None
            &&& p <= 100 ==> (volume_of_percent(percent) matches Some(v) && 100 * v <= 65535 * p < 100 * (v
                + 1))
        },
{
}

/// A name with any character that is not white space is kept, character for character;
/// without one, the device is called after the machine.
pub proof fn law_visible_names_are_kept(configured: Option<String>, host_name: Seq<char>)
    ensures
        configured matches Some(name) ==> (exists|i: int|
            0 <= i < name@.len() && !is_white_space(#[trigger] name@[i])) ==> device_name_of(configured, host_name) == name@,
        configured matches Some(name) ==> (forall|i: int|
            0 <= i < name@.len() ==> is_white_space(#[trigger] name@[i])) ==> device_name_of(configured, host_name)
            == "Spotifyd@"@ + host_name,
        configured is None ==> device_name_of(configured, host_name) == "Spotifyd@"@ + host_name,
        has_usable_name(configured) <==> (configured matches Some(name) && exists|i: int|
            0 <= i < name@.len() && !is_white_space(#[trigger] name@[i])),
{
}

/// Samples of at most 24 bits are dithered, and wider ones are not.
pub proof fn law_narrow_formats_are_dithered(audio_format: LSAudioFormat)
    ensures
        audio_format is S16 ==> ditherer_of(audio_format) == Some(Ditherer::Triangular),
        audio_format is S24 ==> ditherer_of(audio_format) == Some(Ditherer::Triangular),
        audio_format is S24_3 ==> ditherer_of(audio_format) == Some(Ditherer::Triangular),
        audio_format is S32 ==> ditherer_of(audio_format) is None,
        audio_format is F32 ==> ditherer_of(audio_format) is None,
        audio_format is F64 ==> ditherer_of(audio_format) is None,
{
}

/// Wherever the cache lies, its limit is the configured one and it keeps music files
/// unless these are ruled out. It lies in the configured directory, or else in the one that
/// the environment provides; with neither there is none.
pub proof fn law_cache_follows_the_settings(
    config: CliConfig,
    surroundings: Surroundings,
    internal: SpotifydConfig,
)
    requires
        internal.resolves(config, surroundings),
    ensures
        internal.cache matches Some(cache) ==> cache.size_limit == config.shared_config.max_cache_size,
        internal.cache matches Some(cache) ==> (cache.audio <==> config.shared_config.no_audio_cache != Some(
            true,
        )),
        config.shared_config.cache_path matches Some(path) ==> internal.cache matches Some(cache)
            && cache.path == path,
        config.shared_config.cache_path is None ==> (internal.cache is Some <==> surroundings.cache_dir is Some),
        config.shared_config.cache_path is None ==> (surroundings.cache_dir matches Some(dir)
            ==> internal.cache matches Some(cache) && cache.path == dir),
{
}

/// Credentials and the volume are always kept, music files only where they are wanted,
/// and all of them in the one directory of the cache.
pub proof fn law_cache_has_one_directory(cache: CacheSettings)
    ensures
        cache.paths().credentials == Some(cache.path),
        cache.paths().volume == Some(cache.path),
        cache.audio ==> cache.paths().audio == Some(cache.path),
        !cache.audio ==> cache.paths().audio is None,
{
}

/// What is set for the player is what the player gets; what is open gets its default. The
/// bitrate has as many kbit/s as was asked for, and 160 if nothing was.
pub proof fn law_player_follows_the_settings(
    config: CliConfig,
    surroundings: Surroundings,
    internal: SpotifydConfig,
)
    requires
        internal.resolves(config, surroundings),
    ensures
        config.shared_config.bitrate == Some(Bitrate::Bitrate96) ==> internal.player_config.bitrate
            is Bitrate96,
        config.shared_config.bitrate == Some(Bitrate::Bitrate160) ==> internal.player_config.bitrate
            is Bitrate160,
        config.shared_config.bitrate == Some(Bitrate::Bitrate320) ==> internal.player_config.bitrate
            is Bitrate320,
        config.shared_config.bitrate is None ==> internal.player_config.bitrate is Bitrate160,
        config.shared_config.bitrate matches Some(bitrate) ==> librespot_kbps(
            internal.player_config.bitrate,
        ) == bitrate.kbps(),
        config.shared_config.volume_normalisation matches Some(on)
            ==> internal.player_config.normalisation == on,
        config.shared_config.volume_normalisation is None
            ==> !internal.player_config.normalisation,
        config.shared_config.normalisation_pregain matches Some(gain)
            ==> internal.player_config.normalisation_pregain_db.bits == gain.bits,
        config.shared_config.normalisation_pregain is None
            ==> internal.player_config.normalisation_pregain_db.bits == 0,
        internal.player_config.gapless,
        internal.audio_format is S16 ==> internal.player_config.ditherer == Some(Ditherer::Triangular),
        internal.audio_format is S24 ==> internal.player_config.ditherer == Some(Ditherer::Triangular),
        internal.audio_format is S24_3 ==> internal.player_config.ditherer == Some(Ditherer::Triangular),
        internal.audio_format is S32 ==> internal.player_config.ditherer is None,
        internal.audio_format is F32 ==> internal.player_config.ditherer is None,
        internal.audio_format is F64 ==> internal.player_config.ditherer is None,
{
}

/// Players whose configurations ask for different bitrates run at different bitrates.
pub proof fn law_different_bitrates_stay_different(
    config: CliConfig,
    surroundings: Surroundings,
    internal: SpotifydConfig,
    other_config: CliConfig,
    other_surroundings: Surroundings,
    other_internal: SpotifydConfig,
)
    requires
        internal.resolves(config, surroundings),
        other_internal.resolves(other_config, other_surroundings),
        config.shared_config.bitrate is Some,
        other_config.shared_config.bitrate is Some,
        config.shared_config.bitrate != other_config.shared_config.bitrate,
    ensures
        internal.player_config.bitrate != other_internal.player_config.bitrate,
{
}

/// What is set for the audio output is handed on; the sample format keeps its name, and is
/// S16 if it is open, as the volume controller is then the software one.
pub proof fn law_output_follows_the_settings(
    config: CliConfig,
    surroundings: Surroundings,
    internal: SpotifydConfig,
)
    requires
        internal.resolves(config, surroundings),
    ensures
        internal.backend == config.shared_config.backend,
        internal.audio_device == config.shared_config.device,
        config.shared_config.audio_format == Some(AudioFormat::F32) ==> internal.audio_format
            is F32,
        config.shared_config.audio_format == Some(AudioFormat::S32) ==> internal.audio_format
            is S32,
        config.shared_config.audio_format == Some(AudioFormat::S24) ==> internal.audio_format
            is S24,
        config.shared_config.audio_format == Some(AudioFormat::S24_3) ==> internal.audio_format
            is S24_3,
        config.shared_config.audio_format == Some(AudioFormat::S16) ==> internal.audio_format
            is S16,
        config.shared_config.audio_format is None ==> internal.audio_format is S16,
        config.shared_config.volume_controller matches Some(controller)
            ==> internal.volume_controller == controller,
        config.shared_config.volume_controller is None ==> internal.volume_controller
            == VolumeController::SoftVolume,
        internal.alsa_config.control == config.shared_config.alsa_config.control,
        internal.alsa_config.mixer == config.shared_config.alsa_config.mixer,
        config.shared_config.initial_volume is None ==> internal.initial_volume is None,
        config.shared_config.initial_volume matches Some(p) ==> {
            &&& p > 100 ==> internal.initial_volume is None
            &&& p <= 100 ==> (internal.initial_volume matches Some(v) && 100 * v <= 65535 * p < 100 * (v
                + 1))
        },
{
}

/// The device shows itself under the configured name and as the configured type, and is a
/// speaker if that is open. Its identifier is the digest of the name it shows.
pub proof fn law_device_follows_the_settings(
    config: CliConfig,
    surroundings: Surroundings,
    internal: SpotifydConfig,
)
    requires
        internal.resolves(config, surroundings),
    ensures
        config.shared_config.device_name matches Some(name) ==> (exists|i: int|
            0 <= i < name@.len() && !is_white_space(#[trigger] name@[i])) ==> internal.device_name@ == name@,
        config.shared_config.device_name matches Some(name) ==> (forall|i: int|
            0 <= i < name@.len() ==> is_white_space(#[trigger] name@[i])) ==> internal.device_name@
            == "Spotifyd@"@ + surroundings.host_name@,
        config.shared_config.device_name is None ==> internal.device_name@ == "Spotifyd@"@ + surroundings.host_name@,
        config.shared_config.device_type == Some(DeviceType::Unknown) ==> internal.device_type
            is Unknown,
        config.shared_config.device_type == Some(DeviceType::Computer) ==> internal.device_type
            is Computer,
        config.shared_config.device_type == Some(DeviceType::Tablet) ==> internal.device_type
            is Tablet,
        config.shared_config.device_type == Some(DeviceType::Smartphone) ==> internal.device_type
            is Smartphone,
        config.shared_config.device_type == Some(DeviceType::Speaker) ==> internal.device_type
            is Speaker,
        config.shared_config.device_type == Some(DeviceType::Tv) ==> internal.device_type
            is Tv,
        config.shared_config.device_type == Some(DeviceType::Avr) ==> internal.device_type
            is Avr,
        config.shared_config.device_type == Some(DeviceType::Stb) ==> internal.device_type
            is Stb,
        config.shared_config.device_type == Some(DeviceType::AudioDongle) ==> internal.device_type
            is AudioDongle,
        config.shared_config.device_type == Some(DeviceType::GameConsole) ==> internal.device_type
            is GameConsole,
        config.shared_config.device_type == Some(DeviceType::CastAudio) ==> internal.device_type
            is CastAudio,
        config.shared_config.device_type == Some(DeviceType::CastVideo) ==> internal.device_type
            is CastVideo,
        config.shared_config.device_type == Some(DeviceType::Automobile) ==> internal.device_type
            is Automobile,
        config.shared_config.device_type == Some(DeviceType::Smartwatch) ==> internal.device_type
            is Smartwatch,
        config.shared_config.device_type == Some(DeviceType::Chromebook) ==> internal.device_type
            is Chromebook,
        config.shared_config.device_type == Some(DeviceType::UnknownSpotify) ==> internal.device_type
            is UnknownSpotify,
        config.shared_config.device_type == Some(DeviceType::CarThing) ==> internal.device_type
            is CarThing,
        config.shared_config.device_type == Some(DeviceType::Observer) ==> internal.device_type
            is Observer,
        config.shared_config.device_type == Some(DeviceType::HomeThing) ==> internal.device_type
            is HomeThing,
        config.shared_config.device_type is None ==> internal.device_type is Speaker,
        internal.session_config.device_id@ == hex_text(
            sha1_digest(encode_utf8(internal.device_name@)),
        ),
        internal.discovery <==> config.shared_config.disable_discovery != Some(true),
        internal.zeroconf_port == config.shared_config.zeroconf_port,
        internal.mpris.use_mpris == config.shared_config.mpris_config.use_mpris,
        internal.mpris.dbus_type == config.shared_config.mpris_config.dbus_type,
{
}

/// The session runs over port 443, through the configured proxy exactly where that is a URL
/// with the scheme `http`, and hands on what is set for autoplay.
pub proof fn law_session_follows_the_settings(
    config: CliConfig,
    surroundings: Surroundings,
    internal: SpotifydConfig,
)
    requires
        internal.resolves(config, surroundings),
    ensures
        internal.session_config.ap_port == Some(443u16),
        internal.session_config.autoplay == config.shared_config.autoplay,
        config.shared_config.proxy is None ==> internal.session_config.proxy is None,
        config.shared_config.proxy matches Some(text) ==> match parsed_url(text@) {
            Ok(url) => {
                &&& url_scheme(url) == "http"@ ==> internal.session_config.proxy == Some(url)
                &&& url_scheme(url) != "http"@ ==> internal.session_config.proxy is None
            },
            Err(_) => internal.session_config.proxy is None,
        },
{
}

/// The script that runs when the song changes, the PID file and the shell are those that
/// were given; without a shell it is `sh`.
pub proof fn law_process_follows_the_settings(
    config: CliConfig,
    surroundings: Surroundings,
    internal: SpotifydConfig,
)
    requires
        internal.resolves(config, surroundings),
    ensures
        internal.onevent == config.shared_config.on_song_change_hook,
        config.pid is None ==> internal.pid is None,
        config.pid matches Some(path) ==> internal.pid matches Some(text) && path_text(path)
            == Some(text@),
        surroundings.shell matches Some(shell) ==> internal.shell@ == shell@,
        surroundings.shell is None ==> internal.shell@ == "sh"@,
{
}

/// What the environment contributes, it was asked for: without a configured directory the
/// cache lies where looking up the daemon's directories says, and there is none only if
/// that lookup found none; without a visible name the device is called after the machine.
pub proof fn law_environment_fills_what_settings_leave_open(
    config: CliConfig,
    shell: Option<String>,
    surroundings: Surroundings,
    internal: SpotifydConfig,
)
    requires
        internal.resolves(config, surroundings),
        surroundings.can_occur(config, shell),
    ensures
        surroundings.shell == shell,
        config.shared_config.cache_path is None ==> exists|dirs: Option<ProjectDirs>| #[trigger]
            is_project_dirs_outcome(""@, ""@, "spotifyd"@, dirs) && match dirs {
                Some(dirs) => internal.cache matches Some(cache) && cache.path
                    == project_cache_dir(dirs),
                None => internal.cache is None,
            },
        (config.shared_config.device_name matches Some(name) ==> forall|i: int|
            0 <= i < name@.len() ==> is_white_space(#[trigger] name@[i])) ==> exists|
            host_name: Seq<char>,
        | #[trigger]
            is_host_name(host_name) && internal.device_name@ == "Spotifyd@"@ + host_name,
{
    if config.shared_config.cache_path is None {
        let dirs = choose|dirs: Option<ProjectDirs>| #[trigger]
            is_daemon_dirs_outcome(dirs) && surroundings.cache_dir == cache_dir_of(dirs);
        assert(is_project_dirs_outcome(""@, ""@, "spotifyd"@, dirs));
    }
}

} // verus!
