use librespot_core::config::DeviceType as LSDeviceType;
use librespot_playback::config::AudioFormat as LSAudioFormat;
use librespot_playback::config::Bitrate as LSBitrate;
use spotifyd_config::cli::CliConfig;
use spotifyd_config::device_id::{device_id, device_id_of_digest};
use spotifyd_config::internal::{
    device_name, ditherer, get_internal_config, initial_volume, resolve_config,
    try_get_internal_config, CacheSettings, Ditherer, Surroundings,
};
use spotifyd_config::proxy::{check_proxy, select_proxy, ProxyError};
use spotifyd_config::shared::{AlsaConfig, Decibels, MprisConfig, SharedConfigValues};
use spotifyd_config::text::blank;
use spotifyd_config::values::{AudioFormat, Bitrate, DBusType, DeviceType, VolumeController};
use std::path::PathBuf;
use url::Url;

fn surroundings() -> Surroundings {
    Surroundings {
        cache_dir: Some(PathBuf::from("/home/me/.cache/spotifyd")),
        host_name: "attic".to_string(),
        shell: Some("/bin/zsh".to_string()),
    }
}

fn with(shared_config: SharedConfigValues) -> CliConfig {
    CliConfig { shared_config, ..Default::default() }
}

#[test]
fn volumes_are_shares_of_the_largest() {
    assert_eq!(initial_volume(None), None);
    assert_eq!(initial_volume(Some(0)), Some(0));
    assert_eq!(initial_volume(Some(1)), Some(655));
    assert_eq!(initial_volume(Some(33)), Some(21626));
    assert_eq!(initial_volume(Some(50)), Some(32767));
    assert_eq!(initial_volume(Some(99)), Some(64879));
    assert_eq!(initial_volume(Some(100)), Some(65535));
    assert_eq!(initial_volume(Some(101)), None);
    assert_eq!(initial_volume(Some(255)), None);
}

#[test]
fn volumes_grow_with_the_percentage() {
    for percent in 0..100u8 {
        assert!(initial_volume(Some(percent)) < initial_volume(Some(percent + 1)));
    }
}

#[test]
fn blank_is_what_trimming_leaves_nothing_of() {
    for code in 0..=0x10ffffu32 {
        if let Some(c) = char::from_u32(code) {
            let listed = matches!(
                code,
                0x9..=0xd | 0x20 | 0x85 | 0xa0 | 0x1680 | 0x2000..=0x200a | 0x2028 | 0x2029
                    | 0x202f | 0x205f | 0x3000
            );
            assert_eq!(blank(&c.to_string()), listed);
        }
    }
    assert!(blank(""));
    assert!(blank(" \t\n\u{3000}"));
    assert!(!blank("  x  "));
    assert!(!blank("x "));
    assert!(!blank("\u{200b}"));
}

#[test]
fn a_usable_name_is_kept_as_it_is() {
    assert_eq!(device_name(Some("kitchen".to_string()), "attic"), "kitchen");
    assert_eq!(device_name(Some(" kitchen ".to_string()), "attic"), " kitchen ");
}

#[test]
fn a_blank_name_is_replaced() {
    assert_eq!(device_name(None, "attic"), "Spotifyd@attic");
    assert_eq!(device_name(Some("".to_string()), "attic"), "Spotifyd@attic");
    assert_eq!(device_name(Some(" \t ".to_string()), "attic"), "Spotifyd@attic");
    assert_eq!(device_name(None, ""), "Spotifyd@");
}

#[test]
fn narrow_integer_formats_are_dithered() {
    assert_eq!(ditherer(LSAudioFormat::S16), Some(Ditherer::Triangular));
    assert_eq!(ditherer(LSAudioFormat::S24), Some(Ditherer::Triangular));
    assert_eq!(ditherer(LSAudioFormat::S24_3), Some(Ditherer::Triangular));
    assert_eq!(ditherer(LSAudioFormat::S32), None);
    assert_eq!(ditherer(LSAudioFormat::F32), None);
    assert_eq!(ditherer(LSAudioFormat::F64), None);
}

#[test]
fn device_ids_are_digests_in_hexadecimal() {
    assert_eq!(device_id(""), "da39a3ee5e6b4b0d3255bfef95601890afd80709");
    assert_eq!(device_id("Spotifyd"), "795a9819e6627edd2b5f632907d663e8707e474c");
    assert_eq!(device_id("K\u{fc}che"), "a5e64103b6bb519ec07617475dfb2851672b82bc");
    assert_ne!(device_id("kitchen"), device_id("Kitchen"));
}

#[test]
fn digests_are_written_in_lower_case_digits() {
    assert_eq!(device_id_of_digest(&[]), "");
    assert_eq!(device_id_of_digest(&[0x00, 0x0f, 0xa9, 0xff]), "000fa9ff");
}

#[test]
fn no_proxy_is_used_unless_asked_for() {
    assert!(matches!(select_proxy(&None), Ok(None)));
}

#[test]
fn http_proxies_are_used() {
    let proxy = select_proxy(&Some("HTTP://Proxy.example:8080".to_string()));
    assert_eq!(proxy.unwrap().unwrap().as_str(), "http://proxy.example:8080/");
}

#[test]
fn other_proxies_are_refused() {
    let setting = Some("https://proxy.example".to_string());
    assert!(matches!(select_proxy(&setting), Err(ProxyError::NotHttp)));
    let setting = Some("socks5://proxy.example:1080".to_string());
    assert!(matches!(select_proxy(&setting), Err(ProxyError::NotHttp)));
}

#[test]
fn what_is_no_url_is_no_proxy() {
    let setting = Some("proxy.example".to_string());
    assert!(matches!(
        select_proxy(&setting),
        Err(ProxyError::Invalid(url::ParseError::RelativeUrlWithoutBase))
    ));
    assert!(matches!(
        check_proxy(Err(url::ParseError::EmptyHost)),
        Err(ProxyError::Invalid(url::ParseError::EmptyHost))
    ));
}

#[test]
fn open_settings_are_filled_in() {
    let internal = resolve_config(CliConfig::default(), surroundings());
    let cache = internal.cache.unwrap();
    assert_eq!(cache.path, PathBuf::from("/home/me/.cache/spotifyd"));
    assert!(cache.audio);
    assert_eq!(cache.size_limit, None);
    assert_eq!(internal.backend, None);
    assert_eq!(internal.audio_device, None);
    assert_eq!(internal.audio_format, LSAudioFormat::S16);
    assert_eq!(internal.volume_controller, VolumeController::SoftVolume);
    assert_eq!(internal.initial_volume, None);
    assert_eq!(internal.device_name, "Spotifyd@attic");
    assert_eq!(internal.player_config.bitrate, LSBitrate::Bitrate160);
    assert!(!internal.player_config.normalisation);
    assert_eq!(f64::from_bits(internal.player_config.normalisation_pregain_db.bits), 0.0);
    assert!(internal.player_config.gapless);
    assert_eq!(internal.player_config.ditherer, Some(Ditherer::Triangular));
    assert_eq!(internal.session_config.autoplay, None);
    assert_eq!(internal.session_config.device_id, device_id("Spotifyd@attic"));
    assert_eq!(internal.session_config.proxy, None);
    assert_eq!(internal.session_config.ap_port, Some(443));
    assert_eq!(internal.onevent, None);
    assert_eq!(internal.pid, None);
    assert_eq!(internal.shell, "/bin/zsh");
    assert!(internal.discovery);
    assert_eq!(internal.zeroconf_port, None);
    assert_eq!(internal.device_type, LSDeviceType::Speaker);
    assert_eq!(internal.mpris, MprisConfig::default());
    assert_eq!(internal.alsa_config, AlsaConfig::default());
}

#[test]
fn settings_are_kept() {
    let mpris = MprisConfig { use_mpris: Some(false), dbus_type: Some(DBusType::Session) };
    let alsa = AlsaConfig { control: Some("hw:0".to_string()), mixer: Some("PCM".to_string()) };
    let config = CliConfig {
        pid: Some(PathBuf::from("/run/spotifyd.pid")),
        shared_config: SharedConfigValues {
            on_song_change_hook: Some("notify".to_string()),
            cache_path: Some(PathBuf::from("/var/cache")),
            max_cache_size: Some(1_000_000),
            no_audio_cache: Some(true),
            backend: Some("pipe".to_string()),
            volume_controller: Some(VolumeController::AlsaLinear),
            device: Some("/tmp/pipe".to_string()),
            device_name: Some("kitchen".to_string()),
            bitrate: Some(Bitrate::Bitrate320),
            audio_format: Some(AudioFormat::F32),
            initial_volume: Some(90),
            volume_normalisation: Some(true),
            normalisation_pregain: Some(Decibels { bits: (-3.5f64).to_bits() }),
            disable_discovery: Some(true),
            zeroconf_port: Some(4321),
            proxy: Some("http://proxy.example:3128".to_string()),
            device_type: Some(DeviceType::HomeThing),
            autoplay: Some(true),
            alsa_config: alsa.clone(),
            mpris_config: mpris.clone(),
        },
        ..Default::default()
    };
    let internal = resolve_config(config, surroundings());
    let cache = internal.cache.unwrap();
    assert_eq!(cache.path, PathBuf::from("/var/cache"));
    assert!(!cache.audio);
    assert_eq!(cache.size_limit, Some(1_000_000));
    assert_eq!(internal.backend, Some("pipe".to_string()));
    assert_eq!(internal.audio_device, Some("/tmp/pipe".to_string()));
    assert_eq!(internal.audio_format, LSAudioFormat::F32);
    assert_eq!(internal.volume_controller, VolumeController::AlsaLinear);
    assert_eq!(internal.initial_volume, Some(58981));
    assert_eq!(internal.device_name, "kitchen");
    assert_eq!(internal.player_config.bitrate, LSBitrate::Bitrate320);
    assert!(internal.player_config.normalisation);
    assert_eq!(f64::from_bits(internal.player_config.normalisation_pregain_db.bits), -3.5);
    assert!(internal.player_config.gapless);
    assert_eq!(internal.player_config.ditherer, None);
    assert_eq!(internal.session_config.autoplay, Some(true));
    assert_eq!(internal.session_config.device_id, "2f56c0ac09ef740a2b7c6409b5ef046ae6ccd42f");
    assert_eq!(
        internal.session_config.proxy,
        Some(Url::parse("http://proxy.example:3128").unwrap())
    );
    assert_eq!(internal.session_config.ap_port, Some(443));
    assert_eq!(internal.onevent, Some("notify".to_string()));
    assert_eq!(internal.pid, Some("/run/spotifyd.pid".to_string()));
    assert_eq!(internal.shell, "/bin/zsh");
    assert!(!internal.discovery);
    assert_eq!(internal.zeroconf_port, Some(4321));
    assert_eq!(internal.device_type, LSDeviceType::HomeThing);
    assert_eq!(internal.mpris, mpris);
    assert_eq!(internal.alsa_config, alsa);
}

#[test]
fn without_a_shell_it_is_sh() {
    let internal = resolve_config(
        CliConfig::default(),
        Surroundings { shell: None, ..surroundings() },
    );
    assert_eq!(internal.shell, "sh");
}

#[test]
fn without_a_directory_there_is_no_cache() {
    let internal = resolve_config(
        CliConfig::default(),
        Surroundings { cache_dir: None, ..surroundings() },
    );
    assert!(internal.cache.is_none());
}

#[test]
fn an_unusable_proxy_or_volume_is_dropped() {
    let shared = SharedConfigValues {
        proxy: Some("https://proxy.example".to_string()),
        initial_volume: Some(200),
        ..Default::default()
    };
    let internal = resolve_config(with(shared), surroundings());
    assert_eq!(internal.session_config.proxy, None);
    assert_eq!(internal.initial_volume, None);
}

#[test]
fn cache_paths_follow_the_settings() {
    let path = PathBuf::from("/c");
    let cache = CacheSettings { path: path.clone(), audio: true, size_limit: None };
    assert_eq!(cache.credentials_path(), Some(&path));
    assert_eq!(cache.volume_path(), Some(&path));
    assert_eq!(cache.audio_path(), Some(&path));
    let cache = CacheSettings { path: path.clone(), audio: false, size_limit: None };
    assert_eq!(cache.credentials_path(), Some(&path));
    assert_eq!(cache.audio_path(), None);
}

#[test]
fn the_environment_fills_in_names_and_directories() {
    let internal = get_internal_config(CliConfig::default(), None);
    let host = gethostname::gethostname().to_string_lossy().into_owned();
    assert_eq!(internal.device_name, format!("Spotifyd@{}", host));
    let expected = directories::ProjectDirs::from("", "", "spotifyd")
        .map(|dirs| dirs.cache_dir().to_path_buf());
    assert_eq!(internal.cache.map(|cache| cache.path), expected);
    assert_eq!(internal.shell, "sh");
}

#[test]
fn settings_win_over_the_environment() {
    let shared = SharedConfigValues {
        device_name: Some("kitchen".to_string()),
        cache_path: Some(PathBuf::from("/var/cache")),
        ..Default::default()
    };
    let internal = get_internal_config(with(shared), Some("/bin/sh".to_string()));
    assert_eq!(internal.device_name, "kitchen");
    assert_eq!(internal.session_config.device_id, device_id("kitchen"));
    assert_eq!(internal.cache.unwrap().path, PathBuf::from("/var/cache"));
    assert_eq!(internal.shell, "/bin/sh");
}

#[test]
fn a_pid_path_that_is_not_unicode_is_refused() {
    let path = Url::parse("file:///run/%FF").unwrap().to_file_path().unwrap();
    assert!(path.to_str().is_none());
    let config = CliConfig { pid: Some(path), ..Default::default() };
    assert!(try_get_internal_config(config, None).is_none());
    let config = CliConfig { pid: Some(PathBuf::from("/run/pid")), ..Default::default() };
    assert_eq!(try_get_internal_config(config, None).unwrap().pid, Some("/run/pid".to_string()));
    let config = CliConfig { pid: Some(PathBuf::from("/run/pid")), ..Default::default() };
    assert_eq!(get_internal_config(config, None).pid, Some("/run/pid".to_string()));
    assert_eq!(try_get_internal_config(CliConfig::default(), None).unwrap().pid, None);
}

#[test]
fn gains_compare_as_numbers() {
    let numbers = [
        0.0,
        -0.0,
        1.0,
        -1.0,
        f64::MIN_POSITIVE,
        f64::MAX,
        f64::INFINITY,
        f64::NEG_INFINITY,
        f64::NAN,
        -f64::NAN,
    ];
    for a in numbers {
        for b in numbers {
            let same = Decibels { bits: a.to_bits() } == Decibels { bits: b.to_bits() };
            assert_eq!(same, a == b);
        }
    }
    let section = |gain: f64| SharedConfigValues {
        normalisation_pregain: Some(Decibels { bits: gain.to_bits() }),
        ..Default::default()
    };
    assert_eq!(section(0.0), section(-0.0));
    assert_ne!(section(f64::NAN), section(f64::NAN));
    assert_ne!(section(1.0), section(-1.0));
}
