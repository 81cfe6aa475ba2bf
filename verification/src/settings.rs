//! The configuration record, its nested player settings, and the defaults.

use vstd::prelude::*;

verus! {

/// HTTP server port used when neither the file nor the caller names one.
pub const DEFAULT_PORT: u16 = 8080;

/// WebSocket server port used when neither the file nor the caller names one.
pub const DEFAULT_PORT_WS: u16 = 9000;

/// Default UI scale factor, one and a half, as an IEEE 754 binary64 bit pattern.
pub const DEFAULT_SCALE: u64 = 0x3FF8_0000_0000_0000;

/// Name of the application's directory below the platform's configuration
/// and data directories.
pub const APPLICATION_DIR: &'static str = "karaoke-rs";

/// Name of the configuration file inside the application's configuration directory.
pub const CONFIG_FILE_NAME: &'static str = "config.yaml";

/// Name of the song directory inside the application's data directory.
pub const SONG_DIR_NAME: &'static str = "songs";

/// The default pattern by which file names are parsed into song metadata.
pub const DEFAULT_SONG_FORMAT: &'static str = "[*] - [Artist] - [Title]";

/// Display settings of the native player.
///
/// The scale factor is a real number. It is held as the bit pattern of its
/// IEEE 754 binary64 representation, so that two settings are equal exactly
/// when their fields are.
#[derive(Debug, Clone, Copy, PartialEq, Eq, Structural)]
pub struct PlayerConfig {
    /// Whether the native player opens in full screen.
    pub fullscreen: bool,
    /// UI scale factor, as a binary64 bit pattern.
    pub scale: u64,
    /// Whether background rendering is switched off.
    pub disable_background: bool,
}

impl PlayerConfig {
    /// The player settings used where the file sets none.
    pub open spec fn spec_default() -> PlayerConfig {
        PlayerConfig { fullscreen: false, scale: DEFAULT_SCALE, disable_background: false }
    }
}

impl Default for PlayerConfig {
    fn default() -> (r: PlayerConfig)
        ensures
            r == PlayerConfig::spec_default(),
    {
        PlayerConfig { fullscreen: false, scale: DEFAULT_SCALE, disable_background: false }
    }
}

/// The directories and the file that the platform assigns to the application.
///
/// They are found once, when the application starts, and handed to every
/// function that needs a default location. The functions that take them ask
/// that every location is set, that is, not empty; [`Locations::new`] refuses
/// an empty one.
#[derive(Debug, Clone, PartialEq, Eq)]
pub struct Locations {
    /// Where the configuration file lies unless the caller names another path.
    pub config_file: String,
    /// Directory for data that the application manages.
    pub data_dir: String,
    /// Directory that is scanned for songs.
    pub song_dir: String,
}

/// What a [`Locations`] value holds, as sequences of characters.
pub struct LocationsView {
    pub config_file: Seq<char>,
    pub data_dir: Seq<char>,
    pub song_dir: Seq<char>,
}

impl View for Locations {
    type V = LocationsView;

    open spec fn view(&self) -> LocationsView {
        LocationsView {
            config_file: self.config_file@,
            data_dir: self.data_dir@,
            song_dir: self.song_dir@,
        }
    }
}

impl LocationsView {
    /// Whether every location is set: none of the three is empty.
    pub open spec fn is_set(self) -> bool {
        self.config_file.len() > 0 && self.data_dir.len() > 0 && self.song_dir.len() > 0
    }
}

impl Locations {
    /// Takes the three locations if every one of them is set, and refuses
    /// them if one is empty.
    pub fn new(config_file: String, data_dir: String, song_dir: String) -> (locations: Option<
        Locations,
    >)
        ensures
            locations is Some <==> config_file@.len() > 0 && data_dir@.len() > 0 && song_dir@.len()
                > 0,
            locations matches Some(dirs) ==> dirs@.is_set() && dirs@.config_file == config_file@
                && dirs@.data_dir == data_dir@ && dirs@.song_dir == song_dir@,
    {
        let dirs = Locations { config_file, data_dir, song_dir };
        if dirs.is_set() {
            Some(dirs)
        } else {
            None
        }
    }

    /// Whether every location is set: none of the three is empty.
    pub fn is_set(&self) -> (set: bool)
        ensures
            set == self@.is_set(),
    {
        !self.config_file.as_str().is_empty() && !self.data_dir.as_str().is_empty()
            && !self.song_dir.as_str().is_empty()
    }
}

/// The resolved configuration of the application.
#[derive(Debug, Clone, PartialEq, Eq)]
pub struct Config {
    /// Directory that is scanned for songs.
    pub song_path: String,
    /// Directory for data that the application manages.
    pub data_path: String,
    /// Whether the song collection is left as it is on startup.
    pub no_collection_update: bool,
    /// Whether the player runs in the browser rather than natively.
    pub use_web_player: bool,
    /// HTTP server port.
    pub port: u16,
    /// WebSocket server port.
    pub port_ws: u16,
    /// Pattern by which file names are parsed into song metadata.
    pub song_format: String,
    /// Display settings of the native player.
    pub player: PlayerConfig,
}

/// What a [`Config`] value holds, with its texts as sequences of characters.
pub struct ConfigView {
    pub song_path: Seq<char>,
    pub data_path: Seq<char>,
    pub no_collection_update: bool,
    pub use_web_player: bool,
    pub port: u16,
    pub port_ws: u16,
    pub song_format: Seq<char>,
    pub player: PlayerConfig,
}

impl View for Config {
    type V = ConfigView;

    open spec fn view(&self) -> ConfigView {
        ConfigView {
            song_path: self.song_path@,
            data_path: self.data_path@,
            no_collection_update: self.no_collection_update,
            use_web_player: self.use_web_player,
            port: self.port,
            port_ws: self.port_ws,
            song_format: self.song_format@,
            player: self.player,
        }
    }
}

impl ConfigView {
    /// Whether both paths are set: neither the song path nor the data path is empty.
    pub open spec fn paths_set(self) -> bool {
        self.song_path.len() > 0 && self.data_path.len() > 0
    }
}

/// The configuration that holds where neither file nor caller says anything.
pub open spec fn default_config(dirs: LocationsView) -> ConfigView {
    ConfigView {
        song_path: dirs.song_dir,
        data_path: dirs.data_dir,
        no_collection_update: false,
        use_web_player: false,
        port: DEFAULT_PORT,
        port_ws: DEFAULT_PORT_WS,
        song_format: DEFAULT_SONG_FORMAT@,
        player: PlayerConfig::spec_default(),
    }
}

impl Config {
    /// Builds the default configuration for the given locations. The
    /// locations are set, and so are both paths of the defaults.
    pub fn defaults(dirs: &Locations) -> (r: Config)
        requires
            dirs@.is_set(),
        ensures
            r@ == default_config(dirs@),
            r@.paths_set(),
    {
        Config {
            song_path: dirs.song_dir.clone(),
            data_path: dirs.data_dir.clone(),
            no_collection_update: false,
            use_web_player: false,
            port: DEFAULT_PORT,
            port_ws: DEFAULT_PORT_WS,
            song_format: DEFAULT_SONG_FORMAT.to_owned(),
            player: PlayerConfig::default(),
        }
    }

    /// Whether the song collection is to be rescanned on startup.
    pub fn refresh_collection(&self) -> (refresh: bool)
        ensures
            refresh == !self.no_collection_update,
    {
        !self.no_collection_update
    }
}

} // verus!
