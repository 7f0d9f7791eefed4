//! The stored configuration: its defaults, where it lives, and the rules for
//! loading it and for saving the window position.

use vstd::prelude::*;
use std::collections::HashMap;

verus! {

#[verifier::external_type_specification]
#[verifier::external_body]
pub struct ExProjectDirs(directories::ProjectDirs);

/// Broker connection settings.
#[derive(Debug, Clone)]
pub struct MqttConfig {
    pub broker: String,
    pub port: u16,
    pub client_name: String,
}

impl Default for MqttConfig {
    fn default() -> (c: Self)
        ensures
            c.broker@ == "192.168.1.1"@,
            c.port == 1883,
            c.client_name@ == "opendoor_monitor_linux"@,
    {
        MqttConfig {
            broker: "192.168.1.1".to_string(),
            port: 1883,
            client_name: "opendoor_monitor_linux".to_string(),
        }
    }
}

/// Display settings.
#[derive(Debug, Clone, Copy)]
pub struct DisplayConfig {
    pub brightness: u8,
    pub flip_screen: bool,
    pub scroll_interval_ms: u32,
}

impl Default for DisplayConfig {
    fn default() -> (c: Self)
        ensures
            c.brightness == 100,
            !c.flip_screen,
            c.scroll_interval_ms == 1750,
    {
        DisplayConfig { brightness: 100, flip_screen: false, scroll_interval_ms: 1750 }
    }
}

/// Overlay window settings.
#[derive(Debug, Clone, Copy)]
pub struct WindowConfig {
    pub x: i32,
    pub y: i32,
    pub always_on_top: bool,
    pub transparency: u8,
}

impl Default for WindowConfig {
    fn default() -> (c: Self)
        ensures
            c.x == 0,
            c.y == 0,
            c.always_on_top,
            c.transparency == 255,
    {
        WindowConfig { x: 0, y: 0, always_on_top: true, transparency: 255 }
    }
}

/// The whole configuration. `subscriptions` maps a topic to the friendly
/// name of its sensor.
#[derive(Debug, Clone)]
pub struct AppConfig {
    pub mqtt: MqttConfig,
    pub display: DisplayConfig,
    pub window: WindowConfig,
    pub subscriptions: HashMap<String, String>,
}

/// `c` holds the default configuration.
pub open spec fn is_default_config(c: AppConfig) -> bool {
    &&& c.mqtt.broker@ == "192.168.1.1"@
    &&& c.mqtt.port == 1883
    &&& c.mqtt.client_name@ == "opendoor_monitor_linux"@
    &&& c.display.brightness == 100
    &&& !c.display.flip_screen
    &&& c.display.scroll_interval_ms == 1750
    &&& c.window.x == 0
    &&& c.window.y == 0
    &&& c.window.always_on_top
    &&& c.window.transparency == 255
    &&& c.subscriptions@ == Map::<String, String>::empty()
}

impl Default for AppConfig {
    fn default() -> (c: Self)
        ensures
            is_default_config(c),
    {
        AppConfig {
            mqtt: MqttConfig::default(),
            display: DisplayConfig::default(),
            window: WindowConfig::default(),
            subscriptions: HashMap::new(),
        }
    }
}

/// Why the configuration's location is unknown.
#[derive(Debug, Clone, Copy, PartialEq, Eq, Structural)]
pub enum ConfigError {
    /// No configuration directory could be found for this user.
    NoConfigDir,
}

impl ConfigError {
    /// The error as a sentence.
    pub fn message(&self) -> (s: &'static str)
        ensures
            s@ == "Could not determine config directory"@,
    {
        match self {
            ConfigError::NoConfigDir => "Could not determine config directory",
        }
    }
}

/// Calls `directories::ProjectDirs::from`. Nothing is claimed of the result:
/// whether a home directory is found depends on the user's environment. The
/// library looks up only its own directories, so the arguments must be the
/// qualifier, organization and application of `config_dir_identity`, in
/// that order.
#[verifier::external_body]
fn project_dirs_from(qualifier: &str, organization: &str, application: &str) -> Option<
    directories::ProjectDirs,
>
    requires
        qualifier@ == "com"@,
        organization@ == "merlin"@,
        application@ == "opendoor-monitor"@,
{
    directories::ProjectDirs::from(qualifier, organization, application)
}

/// Calls `ProjectDirs::config_dir` and hands back the path's bytes as the
/// platform encodes them (`OsStr::as_encoded_bytes`), unchanged. Nothing is
/// claimed of the result: it comes from the user's environment.
#[verifier::external_body]
fn project_config_dir(dirs: &directories::ProjectDirs) -> Vec<u8> {
    dirs.config_dir().as_os_str().as_encoded_bytes().to_vec()
}

/// The qualifier, organization and application name under which the
/// platform's conventions keep this application's directories.
pub fn config_dir_identity() -> (r: (&'static str, &'static str, &'static str))
    ensures
        r.0@ == "com"@,
        r.1@ == "merlin"@,
        r.2@ == "opendoor-monitor"@,
{
    ("com", "merlin", "opendoor-monitor")
}

/// The directory that holds the configuration, as the platform's
/// conventions place it for the application that `config_dir_identity`
/// names; its path is given as the platform's encoded bytes.
pub fn get_config_dir() -> (r: Result<Vec<u8>, ConfigError>)
    ensures
        r matches Err(e) ==> e == ConfigError::NoConfigDir,
{
    let (qualifier, organization, application) = config_dir_identity();
    match project_dirs_from(qualifier, organization, application) {
        Some(dirs) => Ok(project_config_dir(&dirs)),
        None => Err(ConfigError::NoConfigDir),
    }
}

/// The byte of the path separator `/`.
pub const PATH_SEPARATOR: u8 = 47;

/// The name of the configuration file, `config.toml`, as its ASCII bytes.
pub open spec fn config_file_name() -> Seq<u8> {
    seq![99u8, 111u8, 110u8, 102u8, 105u8, 103u8, 46u8, 116u8, 111u8, 109u8, 108u8]
}

/// `dir` with the configuration file's name appended as a path component:
/// a `/` goes between them unless `dir` is empty or already ends with one.
pub open spec fn config_file_path(dir: Seq<u8>) -> Seq<u8> {
    if dir.len() == 0 {
        config_file_name()
    } else if dir.last() == PATH_SEPARATOR {
        dir + config_file_name()
    } else {
        dir + seq![PATH_SEPARATOR] + config_file_name()
    }
}

/// The path of the configuration file inside the directory `dir`.
pub fn config_file_in(dir: Vec<u8>) -> (p: Vec<u8>)
    ensures
        p@ == config_file_path(dir@),
{
    let mut name: Vec<u8> = vec![99u8, 111u8, 110u8, 102u8, 105u8, 103u8, 46u8, 116u8, 111u8, 109u8, 108u8];
    assert(name@ =~= config_file_name());
    let n = dir.len();
    if n == 0 {
        return name;
    }
    let mut p = dir;
    if p[n - 1] != PATH_SEPARATOR {
        p.push(PATH_SEPARATOR);
    }
    let ghost before = p@;
    p.append(&mut name);
    assert(p@ =~= before + config_file_name());
    p
}

/// The path of the configuration file, as the platform's encoded bytes.
pub fn get_config_path() -> (r: Result<Vec<u8>, ConfigError>)
    ensures
        match r {
            Ok(p) => exists|dir: Seq<u8>| p@ == config_file_path(dir),
            Err(e) => e == ConfigError::NoConfigDir,
        },
{
    let dir = get_config_dir()?;
    Ok(config_file_in(dir))
}

/// The configuration to use, given the one read from disk if the file
/// exists, and whether it must be written back: a missing file is replaced
/// by the default configuration, which is then saved.
pub fn resolve_loaded_config(stored: Option<AppConfig>) -> (r: (AppConfig, bool))
    ensures
        match stored {
            Some(c) => r.0 == c && !r.1,
            None => is_default_config(r.0) && r.1,
        },
{
    match stored {
        Some(c) => (c, false),
        None => (AppConfig::default(), true),
    }
}

/// The least time between two saves of the window position, in milliseconds.
pub const WINDOW_SAVE_INTERVAL_MS: u64 = 300;

/// Whether a window move is saved, given the milliseconds since the last
/// save: moves that come sooner than 300 ms after one are skipped.
pub fn window_move_due(elapsed_ms: u64) -> (b: bool)
    ensures
        b == (elapsed_ms >= WINDOW_SAVE_INTERVAL_MS),
{
    elapsed_ms >= WINDOW_SAVE_INTERVAL_MS
}

} // verus!
