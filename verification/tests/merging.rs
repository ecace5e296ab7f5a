use spotifyd_config::cli::{
    config_file_places, config_file_places_in, get_config_file, CliConfig, ConfigFilePlaces,
    LoadAction, LoadEvent, CONFIG_FILE_NAME,
};
use spotifyd_config::shared::{
    AlsaConfig, Decibels, FileConfig, MprisConfig, SharedConfigValues,
};
use spotifyd_config::values::{AudioFormat, Bitrate, DBusType, DeviceType, VolumeController};
use std::path::PathBuf;

fn full(tag: &str, number: u8) -> SharedConfigValues {
    let text = |name: &str| Some(format!("{}-{}", tag, name));
    SharedConfigValues {
        on_song_change_hook: text("hook"),
        cache_path: Some(PathBuf::from(format!("/{}/cache", tag))),
        max_cache_size: Some(number as u64),
        no_audio_cache: Some(true),
        backend: text("backend"),
        volume_controller: Some(VolumeController::Alsa),
        device: text("device"),
        device_name: text("name"),
        bitrate: Some(Bitrate::Bitrate320),
        audio_format: Some(AudioFormat::S24_3),
        initial_volume: Some(number),
        volume_normalisation: Some(true),
        normalisation_pregain: Some(Decibels { bits: number as u64 }),
        disable_discovery: Some(false),
        zeroconf_port: Some(number as u16),
        proxy: text("proxy"),
        device_type: Some(DeviceType::Avr),
        autoplay: Some(true),
        alsa_config: AlsaConfig { control: text("control"), mixer: text("mixer") },
        mpris_config: MprisConfig {
            use_mpris: Some(true),
            dbus_type: Some(DBusType::System),
        },
    }
}

fn merged(mut first: SharedConfigValues, second: &SharedConfigValues) -> SharedConfigValues {
    first.merge_with(second.clone());
    first
}

#[test]
fn test_section_merging() {
    let mut spotifyd_section = SharedConfigValues {
        device_type: Some(DeviceType::Computer),
        ..Default::default()
    };

    let global_section = SharedConfigValues {
        device_name: Some("spotifyd-test".to_string()),
        ..Default::default()
    };

    // The test only makes sense if both sections differ.
    assert_ne!(spotifyd_section, global_section);

    let file_config = FileConfig {
        global: Some(global_section),
        spotifyd: Some(spotifyd_section.clone()),
    };
    let merged_config = file_config.get_merged_sections().unwrap();

    // Add the new field to spotifyd section.
    spotifyd_section.device_name = Some("spotifyd-test".to_string());
    assert_eq!(merged_config, spotifyd_section);
}

#[test]
fn merging_fills_every_open_setting() {
    assert_eq!(merged(SharedConfigValues::default(), &full("a", 1)), full("a", 1));
}

#[test]
fn merging_keeps_every_setting_that_is_set() {
    assert_eq!(merged(full("a", 1), &full("b", 2)), full("a", 1));
    assert_eq!(merged(full("a", 1), &SharedConfigValues::default()), full("a", 1));
}

#[test]
fn merging_is_idempotent_and_associative() {
    let a = SharedConfigValues {
        bitrate: Some(Bitrate::Bitrate96),
        alsa_config: AlsaConfig { control: Some("hw:0".to_string()), mixer: None },
        ..Default::default()
    };
    let b = SharedConfigValues {
        bitrate: Some(Bitrate::Bitrate160),
        zeroconf_port: Some(1234),
        alsa_config: AlsaConfig {
            control: Some("hw:1".to_string()),
            mixer: Some("PCM".to_string()),
        },
        ..Default::default()
    };
    let c = full("c", 3);
    assert_eq!(merged(a.clone(), &a), a);
    assert_eq!(merged(merged(a.clone(), &b), &b), merged(a.clone(), &b));
    assert_eq!(merged(merged(a.clone(), &b), &a), merged(a.clone(), &b));
    let left = merged(merged(a.clone(), &b), &c);
    let right = merged(a.clone(), &merged(b.clone(), &c));
    assert_eq!(left, right);
    assert_eq!(left.bitrate, Some(Bitrate::Bitrate96));
    assert_eq!(left.zeroconf_port, Some(1234));
    assert_eq!(left.alsa_config.control, Some("hw:0".to_string()));
    assert_eq!(left.alsa_config.mixer, Some("PCM".to_string()));
    assert_eq!(left.backend, Some("c-backend".to_string()));
}

#[test]
fn a_missing_section_leaves_the_other() {
    assert!(FileConfig::default().get_merged_sections().is_none());
    let global_only = FileConfig { global: Some(full("g", 4)), spotifyd: None };
    assert_eq!(global_only.get_merged_sections(), Some(full("g", 4)));
    let daemon_only = FileConfig { global: None, spotifyd: Some(full("d", 5)) };
    assert_eq!(daemon_only.get_merged_sections(), Some(full("d", 5)));
}

#[test]
fn a_configured_path_is_read_without_a_search() {
    let mut config = CliConfig {
        config_path: Some(PathBuf::from("/tmp/my.conf")),
        ..Default::default()
    };
    let action = config.load_config_file_values(LoadEvent::<()>::Started);
    assert!(matches!(action, LoadAction::Read(path) if path == PathBuf::from("/tmp/my.conf")));
    assert_eq!(config.config_path, Some(PathBuf::from("/tmp/my.conf")));
}

#[test]
fn a_search_comes_first_without_a_configured_path() {
    let mut config = CliConfig::default();
    let action = config.load_config_file_values(LoadEvent::<()>::Started);
    assert!(matches!(action, LoadAction::Search));
    let found = LoadEvent::<()>::Searched(Some(PathBuf::from("/etc/spotifyd.conf")));
    let action = config.load_config_file_values(found);
    assert!(
        matches!(action, LoadAction::Read(path) if path == PathBuf::from("/etc/spotifyd.conf"))
    );
    let action = config.load_config_file_values(LoadEvent::<()>::Read(Some("[global]".to_string())));
    assert!(matches!(action, LoadAction::Parse(text) if text == "[global]"));
}

#[test]
fn a_missing_or_unreadable_file_is_no_failure() {
    let mut config = CliConfig { shared_config: full("cli", 6), ..Default::default() };
    assert!(matches!(
        config.load_config_file_values(LoadEvent::<()>::Searched(None)),
        LoadAction::Finish
    ));
    assert!(matches!(
        config.load_config_file_values(LoadEvent::<()>::Read(None)),
        LoadAction::Finish
    ));
    assert_eq!(config.shared_config, full("cli", 6));
}

#[test]
fn a_malformed_file_fails_and_changes_nothing() {
    let mut config = CliConfig::default();
    let action = config.load_config_file_values(LoadEvent::Parsed(Err("bad".to_string())));
    assert!(matches!(action, LoadAction::Fail(reason) if reason == "bad"));
    assert_eq!(config.shared_config, SharedConfigValues::default());
}

#[test]
fn the_command_line_wins_over_the_daemon_section_and_that_over_the_global_one() {
    let mut config = CliConfig {
        no_daemon: true,
        verbose: 2,
        shared_config: SharedConfigValues {
            backend: Some("cli".to_string()),
            ..Default::default()
        },
        ..Default::default()
    };
    let file = FileConfig {
        global: Some(SharedConfigValues {
            backend: Some("global".to_string()),
            device: Some("global".to_string()),
            device_name: Some("global".to_string()),
            ..Default::default()
        }),
        spotifyd: Some(SharedConfigValues {
            backend: Some("daemon".to_string()),
            device: Some("daemon".to_string()),
            ..Default::default()
        }),
    };
    let action = config.load_config_file_values(LoadEvent::<()>::Parsed(Ok(file)));
    assert!(matches!(action, LoadAction::Finish));
    assert_eq!(
        config.shared_config,
        SharedConfigValues {
            backend: Some("cli".to_string()),
            device: Some("daemon".to_string()),
            device_name: Some("global".to_string()),
            ..Default::default()
        }
    );
    assert!(config.no_daemon);
    assert_eq!(config.verbose, 2);
    assert_eq!(config.pid, None);
}

#[test]
fn a_file_without_sections_changes_nothing() {
    let mut config = CliConfig { shared_config: full("cli", 7), ..Default::default() };
    let action = config.load_config_file_values(LoadEvent::<()>::Parsed(Ok(FileConfig::default())));
    assert!(matches!(action, LoadAction::Finish));
    assert_eq!(config.shared_config, full("cli", 7));
}

fn places() -> ConfigFilePlaces {
    ConfigFilePlaces { user: PathBuf::from("/u"), system: PathBuf::from("/s") }
}

#[test]
fn the_users_own_file_comes_first() {
    assert_eq!(get_config_file(Some(places()), true, true), Some(PathBuf::from("/u")));
    assert_eq!(get_config_file(Some(places()), true, false), Some(PathBuf::from("/u")));
    assert_eq!(get_config_file(Some(places()), false, true), Some(PathBuf::from("/s")));
    assert_eq!(get_config_file(Some(places()), false, false), None);
    assert_eq!(get_config_file(None, true, true), None);
}

#[test]
fn configuration_files_have_their_usual_places() {
    assert_eq!(CONFIG_FILE_NAME, "spotifyd.conf");
    assert!(config_file_places_in(None).is_none());
    let dirs = directories::ProjectDirs::from("", "", "spotifyd");
    let expected = dirs.as_ref().map(|dirs| dirs.config_dir().join("spotifyd.conf"));
    let places = config_file_places_in(dirs);
    assert_eq!(places.as_ref().map(|places| places.user.clone()), expected);
    if let Some(places) = places {
        assert_eq!(places.system, PathBuf::from("/etc/spotifyd.conf"));
    }
    assert_eq!(config_file_places().map(|places| places.user), expected);
}

/// Runs loading to its end, and returns the reason for a failure.
fn load(
    config: &mut CliConfig,
    found: Option<PathBuf>,
    read: Option<String>,
    parsed: Result<FileConfig, String>,
) -> Option<String> {
    let mut parsed = Some(parsed);
    let mut event = LoadEvent::Started;
    loop {
        event = match config.load_config_file_values(event) {
            LoadAction::Search => LoadEvent::Searched(found.clone()),
            LoadAction::Read(_) => LoadEvent::Read(read.clone()),
            LoadAction::Parse(_) => LoadEvent::Parsed(parsed.take().unwrap()),
            LoadAction::Finish => return None,
            LoadAction::Fail(reason) => return Some(reason),
        };
    }
}

#[test]
fn a_complete_run_of_loading() {
    let found = Some(PathBuf::from("/etc/spotifyd.conf"));
    let file = || FileConfig { global: Some(full("g", 8)), spotifyd: None };

    let mut config = CliConfig::default();
    assert_eq!(load(&mut config, found.clone(), Some("text".to_string()), Ok(file())), None);
    assert_eq!(config.shared_config, full("g", 8));

    let mut config = CliConfig::default();
    assert_eq!(load(&mut config, None, Some("text".to_string()), Ok(file())), None);
    assert_eq!(config.shared_config, SharedConfigValues::default());

    let mut config = CliConfig { config_path: found.clone(), ..Default::default() };
    assert_eq!(load(&mut config, None, Some("text".to_string()), Ok(file())), None);
    assert_eq!(config.shared_config, full("g", 8));

    let mut config = CliConfig::default();
    assert_eq!(load(&mut config, found.clone(), None, Ok(file())), None);
    assert_eq!(config.shared_config, SharedConfigValues::default());

    let mut config = CliConfig::default();
    let failure = load(&mut config, found, Some("text".to_string()), Err("bad".to_string()));
    assert_eq!(failure, Some("bad".to_string()));
    assert_eq!(config.shared_config, SharedConfigValues::default());
}
