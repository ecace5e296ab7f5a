//! What the command line holds, and how the configuration file is found and loaded.

use crate::paths;
use crate::paths::is_daemon_dirs_outcome;
use crate::paths::path_text;
use crate::paths::project_config_dir;
use crate::paths::pushed_path;
use crate::shared::first_set;
use crate::shared::law_merge_is_associative;
use crate::shared::law_missing_section_counts_as_unset;
use crate::shared::law_unset_is_neutral;
use crate::shared::section_or_unset;
use crate::shared::FileConfig;
use crate::shared::SharedConfigValues;
use directories::ProjectDirs;
use std::path::PathBuf;
use vstd::prelude::*;

verus! {

/// The name of the configuration file.
pub const CONFIG_FILE_NAME: &'static str = "spotifyd.conf";

/// The command line.
#[derive(Debug)]
pub struct CliConfig {
    /// The path of the configuration file to use.
    pub config_path: Option<PathBuf>,
    /// Whether the daemon stays attached to the terminal.
    pub no_daemon: bool,
    /// How verbose the output is.
    pub verbose: u8,
    /// The path of the PID file.
    pub pid: Option<PathBuf>,
    /// The settings that the configuration file may hold too.
    pub shared_config: SharedConfigValues,
}

impl Default for CliConfig {
    fn default() -> (res: Self)
        ensures
            res.config_path is None,
            !res.no_daemon,
            res.verbose == 0,
            res.pid is None,
            res.shared_config == SharedConfigValues::unset(),
    {
        CliConfig {
            config_path: None,
            no_daemon: false,
            verbose: 0,
            pid: None,
            shared_config: SharedConfigValues::default(),
        }
    }
}

/// What has happened since the last step of loading the configuration file. `E` is
/// the reason for which a text is no configuration file.
pub enum LoadEvent<E> {
    /// Loading begins.
    Started,
    /// The usual places were searched for a configuration file.
    Searched(Option<PathBuf>),
    /// The file was read; `None` where that failed.
    Read(Option<String>),
    /// The text of the file was parsed.
    Parsed(Result<FileConfig, E>),
}

/// What to do next in order to load the configuration file.
pub enum LoadAction<E> {
    /// Search the usual places for a configuration file.
    Search,
    /// Read this file.
    Read(PathBuf),
    /// Parse this text.
    Parse(String),
    /// Nothing: loading is complete.
    Finish,
    /// Give up: the text is no configuration file.
    Fail(E),
}

impl CliConfig {
    /// What to do after `event`. A path on the command line makes the search
    /// unnecessary; no file, or one that cannot be read, is no failure.
    pub open spec fn action_after<E>(self, event: LoadEvent<E>) -> LoadAction<E> {
        match event {
            LoadEvent::Started => match self.config_path {
                Some(path) => LoadAction::Read(path),
                None => LoadAction::Search,
            },
            LoadEvent::Searched(Some(path)) => LoadAction::Read(path),
            LoadEvent::Searched(None) => LoadAction::Finish,
            LoadEvent::Read(Some(text)) => LoadAction::Parse(text),
            LoadEvent::Read(None) => LoadAction::Finish,
            LoadEvent::Parsed(Ok(_)) => LoadAction::Finish,
            LoadEvent::Parsed(Err(err)) => LoadAction::Fail(err),
        }
    }

    /// The configuration after `event`. Only a parsed file with a section in it
    /// changes anything: it supplies the settings that the command line leaves open.
    pub open spec fn config_after<E>(self, event: LoadEvent<E>) -> CliConfig {
        match event {
            LoadEvent::Parsed(Ok(file)) => match file.merged_sections() {
                Some(sections) => CliConfig {
                    shared_config: self.shared_config.merged_with(sections),
                    ..self
                },
                None => self,
            },
            _ => self,
        }
    }

    /// One step of loading the configuration file: takes note of what happened, and
    /// says what to do next.
    pub fn load_config_file_values<E>(&mut self, event: LoadEvent<E>) -> (action: LoadAction<E>)
        ensures
            action == old(self).action_after(event),
            *final(self) == old(self).config_after(event),
            event is Started ==> match old(self).config_path {
                Some(path) => action == LoadAction::<E>::Read(path),
                None => action is Search,
            },
            event matches LoadEvent::Searched(Some(path)) ==> action == LoadAction::<E>::Read(path),
            event matches LoadEvent::Searched(None) ==> action is Finish,
            event matches LoadEvent::Read(Some(text)) ==> action == LoadAction::<E>::Parse(text),
            event matches LoadEvent::Read(None) ==> action is Finish,
            event matches LoadEvent::Parsed(Ok(_)) ==> action is Finish,
            event matches LoadEvent::Parsed(Err(err)) ==> action == LoadAction::<E>::Fail(err),
            !(event is Parsed) ==> *final(self) == *old(self),
            event matches LoadEvent::Parsed(Err(_)) ==> *final(self) == *old(self),
            final(self).config_path == old(self).config_path,
            final(self).no_daemon == old(self).no_daemon,
            final(self).verbose == old(self).verbose,
            final(self).pid == old(self).pid,
    {
        match event {
            LoadEvent::Started => match &self.config_path {
                Some(path) => LoadAction::Read(path.clone()),
                None => LoadAction::Search,
            },
            LoadEvent::Searched(Some(path)) => LoadAction::Read(path),
            LoadEvent::Searched(None) => LoadAction::Finish,
            LoadEvent::Read(Some(text)) => LoadAction::Parse(text),
            LoadEvent::Read(None) => LoadAction::Finish,
            LoadEvent::Parsed(Ok(file)) => {
                if let Some(merged_sections) = file.get_merged_sections() {
                    self.shared_config.merge_with(merged_sections);
                }
                LoadAction::Finish
            },
            LoadEvent::Parsed(Err(err)) => LoadAction::Fail(err),
        }
    }
}

/// The places in which a configuration file is looked for.
pub struct ConfigFilePlaces {
    /// The file in the user's own configuration directory.
    pub user: PathBuf,
    /// The file that serves the whole system.
    pub system: PathBuf,
}

impl ConfigFilePlaces {
    /// Whether these are the places that go with the directories `dirs`.
    pub open spec fn go_with(self, dirs: ProjectDirs) -> bool {
        &&& self.user == pushed_path(project_config_dir(dirs), "spotifyd.conf"@)
        &&& path_text(self.system) == Some("/etc/"@ + "spotifyd.conf"@)
    }
}

/// The places in which a configuration file is looked for, given the daemon's
/// directories. Without such directories there are none.
pub fn config_file_places_in(dirs: Option<ProjectDirs>) -> (res: Option<ConfigFilePlaces>)
    ensures
        res is Some == dirs is Some,
        res matches Some(places) ==> places.go_with(dirs->0),
        res matches Some(places) ==> places.user == pushed_path(
            project_config_dir(dirs->0),
            "spotifyd.conf"@,
        ) && path_text(places.system) == Some("/etc/"@ + "spotifyd.conf"@),
{
    match dirs {
        Some(dirs) => {
            let mut user = paths::config_dir(&dirs);
            paths::push(&mut user, CONFIG_FILE_NAME);
            let mut system_text = "/etc/".to_owned();
            system_text.append(CONFIG_FILE_NAME);
            Some(ConfigFilePlaces { user, system: paths::from_text(system_text) })
        },
        None => None,
    }
}

/// The places in which a configuration file is looked for in this environment. There
/// are none where, and only where, looking up the daemon's directories finds none.
pub fn config_file_places() -> (res: Option<ConfigFilePlaces>)
    ensures
        exists|dirs: Option<ProjectDirs>| #[trigger]
            is_daemon_dirs_outcome(dirs) && res is Some == dirs is Some && (res matches Some(
                places,
            ) ==> places.go_with(dirs->0)),
{
    let dirs = paths::daemon_dirs();
    config_file_places_in(dirs)
}

/// The configuration file, by which of the places hold one.
pub open spec fn chosen_file(
    places: Option<ConfigFilePlaces>,
    user_exists: bool,
    system_exists: bool,
) -> Option<PathBuf> {
    match places {
        Some(places) => if user_exists {
            Some(places.user)
        } else if system_exists {
            Some(places.system)
        } else {
            None
        },
        None => None,
    }
}

/// Chooses the configuration file, by which of the places hold one: the user's own
/// file comes first.
pub fn get_config_file(
    places: Option<ConfigFilePlaces>,
    user_exists: bool,
    system_exists: bool,
) -> (res: Option<PathBuf>)
    ensures
        res == chosen_file(places, user_exists, system_exists),
        places is None ==> res is None,
        places matches Some(places) ==> {
            &&& user_exists ==> res == Some(places.user)
            &&& !user_exists && system_exists ==> res == Some(places.system)
            &&& !user_exists && !system_exists ==> res is None
        },
{
    match places {
        Some(places) => {
            if user_exists {
                Some(places.user)
            } else if system_exists {
                Some(places.system)
            } else {
                None
            }
        },
        None => None,
    }
}

/// The command line wins over the daemon's section of the file, and that section
/// over the global one.
pub proof fn law_precedence_of_sources<E>(config: CliConfig, file: FileConfig)
    ensures
        config.config_after(LoadEvent::<E>::Parsed(Ok(file))).shared_config
            == config.shared_config.merged_with(section_or_unset(file.spotifyd)).merged_with(
            section_or_unset(file.global),
        ),
{
    law_missing_section_counts_as_unset(file);
    law_unset_is_neutral(config.shared_config);
    law_merge_is_associative(
        config.shared_config,
        section_or_unset(file.spotifyd),
        section_or_unset(file.global),
    );
}

/// A file that is missing, unreadable or malformed leaves the configuration as it
/// was, and only a malformed one makes loading fail.
pub proof fn law_only_a_parsed_file_changes_the_configuration<E>(
    config: CliConfig,
    event: LoadEvent<E>,
)
    ensures
        !(event matches LoadEvent::Parsed(Ok(_))) ==> config.config_after(event) == config,
        config.action_after(event) is Fail <==> event matches LoadEvent::Parsed(Err(_)),
{
}

/// Loading never changes anything but the settings that the file may hold.
pub proof fn law_loading_changes_shared_settings_only<E>(config: CliConfig, event: LoadEvent<E>)
    ensures
        config.config_after(event) == (CliConfig {
            shared_config: config.config_after(event).shared_config,
            ..config
        }),
{
}

impl<E> LoadEvent<E> {
    /// How far loading has come with this event.
    pub open spec fn stage(self) -> int {
        match self {
            LoadEvent::Started => 0,
            LoadEvent::Searched(_) => 1,
            LoadEvent::Read(_) => 2,
            LoadEvent::Parsed(_) => 3,
        }
    }

    /// Whether this is an event that `action` leads to.
    pub open spec fn answers(self, action: LoadAction<E>) -> bool {
        match action {
            LoadAction::Search => self is Searched,
            LoadAction::Read(_) => self is Read,
            LoadAction::Parse(_) => self is Parsed,
            LoadAction::Finish | LoadAction::Fail(_) => false,
        }
    }
}

/// Loading always comes to an end: each step leads to a later one.
pub proof fn law_loading_makes_progress<E>(
    config: CliConfig,
    event: LoadEvent<E>,
    answer: LoadEvent<E>,
)
    requires
        answer.answers(config.action_after(event)),
    ensures
        event.stage() < answer.stage() <= 3,
{
}

/// Where loading ends when it goes on from `event`: the configuration, and the reason
/// for a failure. `found` is what a search comes to, `read` and `parse` what reading a
/// file and parsing a text come to.
pub open spec fn run_loading<E>(
    config: CliConfig,
    event: LoadEvent<E>,
    found: Option<PathBuf>,
    read: spec_fn(PathBuf) -> Option<String>,
    parse: spec_fn(String) -> Result<FileConfig, E>,
) -> (CliConfig, Option<E>)
    decreases 3 - event.stage(),
{
    let next = config.config_after(event);
    match config.action_after(event) {
        LoadAction::Search => run_loading(next, LoadEvent::Searched(found), found, read, parse),
        LoadAction::Read(path) => run_loading(
            next,
            LoadEvent::Read(read(path)),
            found,
            read,
            parse,
        ),
        LoadAction::Parse(text) => run_loading(
            next,
            LoadEvent::Parsed(parse(text)),
            found,
            read,
            parse,
        ),
        LoadAction::Finish => (next, None),
        LoadAction::Fail(err) => (next, Some(err)),
    }
}

/// A complete run: the file on the command line, or else the one that was found, is
/// read and parsed, and supplies what the command line leaves open.
pub proof fn law_complete_run_of_loading<E>(
    config: CliConfig,
    found: Option<PathBuf>,
    read: spec_fn(PathBuf) -> Option<String>,
    parse: spec_fn(String) -> Result<FileConfig, E>,
)
    ensures
        run_loading(config, LoadEvent::Started, found, read, parse) == match first_set(
            config.config_path,
            found,
        ) {
            Some(path) => match read(path) {
                Some(text) => match parse(text) {
                    Ok(file) => (
                        CliConfig {
                            shared_config: config.shared_config.merged_with(
                                section_or_unset(file.merged_sections()),
                            ),
                            ..config
                        },
                        None,
                    ),
                    Err(err) => (config, Some(err)),
                },
                None => (config, None),
            },
            None => (config, None),
        },
{
    reveal_with_fuel(run_loading, 4);
    law_unset_is_neutral(config.shared_config);
}

/// Each step of loading, whatever else is configured: a path on the command line is read
/// at once, and without one the usual places are searched; what is found is read, what is
/// read is parsed; and only a malformed text is a failure.
pub proof fn law_steps_of_loading<E>(
    config: CliConfig,
    path: PathBuf,
    text: String,
    file: FileConfig,
    err: E,
)
    ensures
        config.config_path == Some(path) ==> config.action_after(LoadEvent::<E>::Started)
            == LoadAction::<E>::Read(path),
        config.config_path is None ==> config.action_after(LoadEvent::<E>::Started)
            == LoadAction::<E>::Search,
        config.action_after(LoadEvent::<E>::Searched(Some(path))) == LoadAction::<E>::Read(path),
        config.action_after(LoadEvent::<E>::Searched(None)) == LoadAction::<E>::Finish,
        config.action_after(LoadEvent::<E>::Read(Some(text))) == LoadAction::<E>::Parse(text),
        config.action_after(LoadEvent::<E>::Read(None)) == LoadAction::<E>::Finish,
        config.action_after(LoadEvent::<E>::Parsed(Ok(file))) == LoadAction::<E>::Finish,
        config.action_after(LoadEvent::<E>::Parsed(Err(err))) == LoadAction::<E>::Fail(err),
{
}

/// Every single setting, once a file with both sections is loaded: the command line
/// decides it if it sets it, else the daemon's section if that sets it, else the global
/// section.
pub proof fn law_each_setting_has_the_first_source_that_sets_it<E>(
    config: CliConfig,
    spotifyd: SharedConfigValues,
    global: SharedConfigValues,
)
    ensures
        ({
            let own = config.shared_config;
            let file = FileConfig { global: Some(global), spotifyd: Some(spotifyd) };
            let loaded = config.config_after(LoadEvent::<E>::Parsed(Ok(file))).shared_config;
            &&& own.on_song_change_hook is Some ==> loaded.on_song_change_hook == own.on_song_change_hook
            &&& own.on_song_change_hook is None && spotifyd.on_song_change_hook is Some ==> loaded.on_song_change_hook
                == spotifyd.on_song_change_hook
            &&& own.on_song_change_hook is None && spotifyd.on_song_change_hook is None ==> loaded.on_song_change_hook
                == global.on_song_change_hook
            &&& own.cache_path is Some ==> loaded.cache_path == own.cache_path
            &&& own.cache_path is None && spotifyd.cache_path is Some ==> loaded.cache_path
                == spotifyd.cache_path
            &&& own.cache_path is None && spotifyd.cache_path is None ==> loaded.cache_path
                == global.cache_path
            &&& own.max_cache_size is Some ==> loaded.max_cache_size == own.max_cache_size
            &&& own.max_cache_size is None && spotifyd.max_cache_size is Some ==> loaded.max_cache_size
                == spotifyd.max_cache_size
            &&& own.max_cache_size is None && spotifyd.max_cache_size is None ==> loaded.max_cache_size
                == global.max_cache_size
            &&& own.no_audio_cache is Some ==> loaded.no_audio_cache == own.no_audio_cache
            &&& own.no_audio_cache is None && spotifyd.no_audio_cache is Some ==> loaded.no_audio_cache
                == spotifyd.no_audio_cache
            &&& own.no_audio_cache is None && spotifyd.no_audio_cache is None ==> loaded.no_audio_cache
                == global.no_audio_cache
            &&& own.backend is Some ==> loaded.backend == own.backend
            &&& own.backend is None && spotifyd.backend is Some ==> loaded.backend
                == spotifyd.backend
            &&& own.backend is None && spotifyd.backend is None ==> loaded.backend
                == global.backend
            &&& own.volume_controller is Some ==> loaded.volume_controller == own.volume_controller
            &&& own.volume_controller is None && spotifyd.volume_controller is Some ==> loaded.volume_controller
                == spotifyd.volume_controller
            &&& own.volume_controller is None && spotifyd.volume_controller is None ==> loaded.volume_controller
                == global.volume_controller
            &&& own.device is Some ==> loaded.device == own.device
            &&& own.device is None && spotifyd.device is Some ==> loaded.device
                == spotifyd.device
            &&& own.device is None && spotifyd.device is None ==> loaded.device
                == global.device
            &&& own.device_name is Some ==> loaded.device_name == own.device_name
            &&& own.device_name is None && spotifyd.device_name is Some ==> loaded.device_name
                == spotifyd.device_name
            &&& own.device_name is None && spotifyd.device_name is None ==> loaded.device_name
                == global.device_name
            &&& own.bitrate is Some ==> loaded.bitrate == own.bitrate
            &&& own.bitrate is None && spotifyd.bitrate is Some ==> loaded.bitrate
                == spotifyd.bitrate
            &&& own.bitrate is None && spotifyd.bitrate is None ==> loaded.bitrate
                == global.bitrate
            &&& own.audio_format is Some ==> loaded.audio_format == own.audio_format
            &&& own.audio_format is None && spotifyd.audio_format is Some ==> loaded.audio_format
                == spotifyd.audio_format
            &&& own.audio_format is None && spotifyd.audio_format is None ==> loaded.audio_format
                == global.audio_format
            &&& own.initial_volume is Some ==> loaded.initial_volume == own.initial_volume
            &&& own.initial_volume is None && spotifyd.initial_volume is Some ==> loaded.initial_volume
                == spotifyd.initial_volume
            &&& own.initial_volume is None && spotifyd.initial_volume is None ==> loaded.initial_volume
                == global.initial_volume
            &&& own.volume_normalisation is Some ==> loaded.volume_normalisation == own.volume_normalisation
            &&& own.volume_normalisation is None && spotifyd.volume_normalisation is Some ==> loaded.volume_normalisation
                == spotifyd.volume_normalisation
            &&& own.volume_normalisation is None && spotifyd.volume_normalisation is None ==> loaded.volume_normalisation
                == global.volume_normalisation
            &&& own.normalisation_pregain is Some ==> loaded.normalisation_pregain == own.normalisation_pregain
            &&& own.normalisation_pregain is None && spotifyd.normalisation_pregain is Some ==> loaded.normalisation_pregain
                == spotifyd.normalisation_pregain
            &&& own.normalisation_pregain is None && spotifyd.normalisation_pregain is None ==> loaded.normalisation_pregain
                == global.normalisation_pregain
            &&& own.disable_discovery is Some ==> loaded.disable_discovery == own.disable_discovery
            &&& own.disable_discovery is None && spotifyd.disable_discovery is Some ==> loaded.disable_discovery
                == spotifyd.disable_discovery
            &&& own.disable_discovery is None && spotifyd.disable_discovery is None ==> loaded.disable_discovery
                == global.disable_discovery
            &&& own.zeroconf_port is Some ==> loaded.zeroconf_port == own.zeroconf_port
            &&& own.zeroconf_port is None && spotifyd.zeroconf_port is Some ==> loaded.zeroconf_port
                == spotifyd.zeroconf_port
            &&& own.zeroconf_port is None && spotifyd.zeroconf_port is None ==> loaded.zeroconf_port
                == global.zeroconf_port
            &&& own.proxy is Some ==> loaded.proxy == own.proxy
            &&& own.proxy is None && spotifyd.proxy is Some ==> loaded.proxy
                == spotifyd.proxy
            &&& own.proxy is None && spotifyd.proxy is None ==> loaded.proxy
                == global.proxy
            &&& own.device_type is Some ==> loaded.device_type == own.device_type
            &&& own.device_type is None && spotifyd.device_type is Some ==> loaded.device_type
                == spotifyd.device_type
            &&& own.device_type is None && spotifyd.device_type is None ==> loaded.device_type
                == global.device_type
            &&& own.autoplay is Some ==> loaded.autoplay == own.autoplay
            &&& own.autoplay is None && spotifyd.autoplay is Some ==> loaded.autoplay
                == spotifyd.autoplay
            &&& own.autoplay is None && spotifyd.autoplay is None ==> loaded.autoplay
                == global.autoplay
            &&& own.alsa_config.control is Some ==> loaded.alsa_config.control == own.alsa_config.control
            &&& own.alsa_config.control is None && spotifyd.alsa_config.control is Some ==> loaded.alsa_config.control
                == spotifyd.alsa_config.control
            &&& own.alsa_config.control is None && spotifyd.alsa_config.control is None ==> loaded.alsa_config.control
                == global.alsa_config.control
            &&& own.alsa_config.mixer is Some ==> loaded.alsa_config.mixer == own.alsa_config.mixer
            &&& own.alsa_config.mixer is None && spotifyd.alsa_config.mixer is Some ==> loaded.alsa_config.mixer
                == spotifyd.alsa_config.mixer
            &&& own.alsa_config.mixer is None && spotifyd.alsa_config.mixer is None ==> loaded.alsa_config.mixer
                == global.alsa_config.mixer
            &&& own.mpris_config.use_mpris is Some ==> loaded.mpris_config.use_mpris == own.mpris_config.use_mpris
            &&& own.mpris_config.use_mpris is None && spotifyd.mpris_config.use_mpris is Some ==> loaded.mpris_config.use_mpris
                == spotifyd.mpris_config.use_mpris
            &&& own.mpris_config.use_mpris is None && spotifyd.mpris_config.use_mpris is None ==> loaded.mpris_config.use_mpris
                == global.mpris_config.use_mpris
            &&& own.mpris_config.dbus_type is Some ==> loaded.mpris_config.dbus_type == own.mpris_config.dbus_type
            &&& own.mpris_config.dbus_type is None && spotifyd.mpris_config.dbus_type is Some ==> loaded.mpris_config.dbus_type
                == spotifyd.mpris_config.dbus_type
            &&& own.mpris_config.dbus_type is None && spotifyd.mpris_config.dbus_type is None ==> loaded.mpris_config.dbus_type
                == global.mpris_config.dbus_type
        }),
{
}

/// Every single setting, once a file with one section is loaded: the command line decides
/// it if it sets it, else that section. A file without sections changes nothing.
pub proof fn law_lone_section_fills_open_settings<E>(
    config: CliConfig,
    section: SharedConfigValues,
    file: FileConfig,
)
    requires
        file.global == Some(section) && file.spotifyd is None || file.global is None
            && file.spotifyd == Some(section),
    ensures
        ({
            let own = config.shared_config;
            let loaded = config.config_after(LoadEvent::<E>::Parsed(Ok(file))).shared_config;
            &&& own.on_song_change_hook is Some ==> loaded.on_song_change_hook == own.on_song_change_hook
            &&& own.on_song_change_hook is None ==> loaded.on_song_change_hook == section.on_song_change_hook
            &&& own.cache_path is Some ==> loaded.cache_path == own.cache_path
            &&& own.cache_path is None ==> loaded.cache_path == section.cache_path
            &&& own.max_cache_size is Some ==> loaded.max_cache_size == own.max_cache_size
            &&& own.max_cache_size is None ==> loaded.max_cache_size == section.max_cache_size
            &&& own.no_audio_cache is Some ==> loaded.no_audio_cache == own.no_audio_cache
            &&& own.no_audio_cache is None ==> loaded.no_audio_cache == section.no_audio_cache
            &&& own.backend is Some ==> loaded.backend == own.backend
            &&& own.backend is None ==> loaded.backend == section.backend
            &&& own.volume_controller is Some ==> loaded.volume_controller == own.volume_controller
            &&& own.volume_controller is None ==> loaded.volume_controller == section.volume_controller
            &&& own.device is Some ==> loaded.device == own.device
            &&& own.device is None ==> loaded.device == section.device
            &&& own.device_name is Some ==> loaded.device_name == own.device_name
            &&& own.device_name is None ==> loaded.device_name == section.device_name
            &&& own.bitrate is Some ==> loaded.bitrate == own.bitrate
            &&& own.bitrate is None ==> loaded.bitrate == section.bitrate
            &&& own.audio_format is Some ==> loaded.audio_format == own.audio_format
            &&& own.audio_format is None ==> loaded.audio_format == section.audio_format
            &&& own.initial_volume is Some ==> loaded.initial_volume == own.initial_volume
            &&& own.initial_volume is None ==> loaded.initial_volume == section.initial_volume
            &&& own.volume_normalisation is Some ==> loaded.volume_normalisation == own.volume_normalisation
            &&& own.volume_normalisation is None ==> loaded.volume_normalisation == section.volume_normalisation
            &&& own.normalisation_pregain is Some ==> loaded.normalisation_pregain == own.normalisation_pregain
            &&& own.normalisation_pregain is None ==> loaded.normalisation_pregain == section.normalisation_pregain
            &&& own.disable_discovery is Some ==> loaded.disable_discovery == own.disable_discovery
            &&& own.disable_discovery is None ==> loaded.disable_discovery == section.disable_discovery
            &&& own.zeroconf_port is Some ==> loaded.zeroconf_port == own.zeroconf_port
            &&& own.zeroconf_port is None ==> loaded.zeroconf_port == section.zeroconf_port
            &&& own.proxy is Some ==> loaded.proxy == own.proxy
            &&& own.proxy is None ==> loaded.proxy == section.proxy
            &&& own.device_type is Some ==> loaded.device_type == own.device_type
            &&& own.device_type is None ==> loaded.device_type == section.device_type
            &&& own.autoplay is Some ==> loaded.autoplay == own.autoplay
            &&& own.autoplay is None ==> loaded.autoplay == section.autoplay
            &&& own.alsa_config.control is Some ==> loaded.alsa_config.control == own.alsa_config.control
            &&& own.alsa_config.control is None ==> loaded.alsa_config.control == section.alsa_config.control
            &&& own.alsa_config.mixer is Some ==> loaded.alsa_config.mixer == own.alsa_config.mixer
            &&& own.alsa_config.mixer is None ==> loaded.alsa_config.mixer == section.alsa_config.mixer
            &&& own.mpris_config.use_mpris is Some ==> loaded.mpris_config.use_mpris == own.mpris_config.use_mpris
            &&& own.mpris_config.use_mpris is None ==> loaded.mpris_config.use_mpris == section.mpris_config.use_mpris
            &&& own.mpris_config.dbus_type is Some ==> loaded.mpris_config.dbus_type == own.mpris_config.dbus_type
            &&& own.mpris_config.dbus_type is None ==> loaded.mpris_config.dbus_type == section.mpris_config.dbus_type
        }),
        config.config_after(
            LoadEvent::<E>::Parsed(Ok(FileConfig { global: None, spotifyd: None })),
        ) == config,
{
}

/// The user's own file is chosen wherever it exists, the system's file only where the
/// user's does not exist, and none where neither exists or where there are no places.
pub proof fn law_users_file_comes_first(
    places: ConfigFilePlaces,
    user_exists: bool,
    system_exists: bool,
)
    ensures
        user_exists ==> chosen_file(Some(places), user_exists, system_exists) == Some(places.user),
        !user_exists && system_exists ==> chosen_file(Some(places), user_exists, system_exists)
            == Some(places.system),
        !user_exists && !system_exists ==> chosen_file(
            Some(places),
            user_exists,
            system_exists,
        ) is None,
        chosen_file(None, user_exists, system_exists) is None,
{
}

/// The user's file is `spotifyd.conf` in the daemon's configuration directory, and the
/// system's is `/etc/spotifyd.conf`.
pub proof fn law_places_of_configuration_files(places: ConfigFilePlaces, dirs: ProjectDirs)
    requires
        places.go_with(dirs),
    ensures
        places.user == pushed_path(project_config_dir(dirs), "spotifyd.conf"@),
        path_text(places.system) == Some("/etc/spotifyd.conf"@),
{
    reveal_strlit("/etc/");
    reveal_strlit("spotifyd.conf");
    reveal_strlit("/etc/spotifyd.conf");
    assert("/etc/"@ + "spotifyd.conf"@ =~= "/etc/spotifyd.conf"@);
}

} // verus!
