//! Layered resolution of the media player's runtime configuration.
//!
//! A configuration is resolved from three sources, applied in a fixed order:
//! the built-in defaults, the fields that the configuration file sets, and
//! the overrides that the caller supplies. Everything that touches the file
//! system happens outside this crate; the functions here take what was found
//! there as values and decide what follows from it.

pub mod bootstrap;
pub mod error;
pub mod laws;
pub mod layer;
pub mod merge;
pub mod overrides;
pub mod resolve;
pub mod settings;
pub mod store;

pub use bootstrap::{bootstrap_action, bootstrap_failure, Bootstrap, BootstrapAction};
pub use error::ConfigError;
pub use layer::{decode, read_all, FileLayer, PlayerLayer, Readings};
pub use merge::{default_or_file, merge, ConfigFile};
pub use overrides::{apply_overrides, Overrides};
pub use resolve::{config_file_path, load_config};
pub use settings::{
    Config, Locations, PlayerConfig, APPLICATION_DIR, CONFIG_FILE_NAME, DEFAULT_PORT,
    DEFAULT_PORT_WS, DEFAULT_SCALE, DEFAULT_SONG_FORMAT, SONG_DIR_NAME,
};
pub use store::Lookup;
