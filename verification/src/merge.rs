//! Merging the layer of the configuration file over the defaults.

use crate::error::ConfigError;
use crate::layer::{decode, decoded, empty_layer, FileLayer, FileLayerView};
use crate::settings::{default_config, Config, ConfigView, Locations, LocationsView, PlayerConfig};
use ::config::Config as Store;
use vstd::prelude::*;

verus! {

/// The base with each field that the layer sets replaced by the layer's
/// value. The layer wins wherever it speaks; the base stands everywhere else.
pub open spec fn merged(base: ConfigView, layer: FileLayerView) -> ConfigView {
    ConfigView {
        song_path: layer.song_path.unwrap_or(base.song_path),
        data_path: layer.data_path.unwrap_or(base.data_path),
        no_collection_update: layer.no_collection_update.unwrap_or(base.no_collection_update),
        use_web_player: layer.use_web_player.unwrap_or(base.use_web_player),
        port: layer.port.unwrap_or(base.port),
        port_ws: layer.port_ws.unwrap_or(base.port_ws),
        song_format: layer.song_format.unwrap_or(base.song_format),
        player: PlayerConfig {
            fullscreen: layer.player.fullscreen.unwrap_or(base.player.fullscreen),
            scale: layer.player.scale.unwrap_or(base.player.scale),
            disable_background: layer.player.disable_background.unwrap_or(
                base.player.disable_background,
            ),
        },
    }
}

/// Lays the fields that a file sets over a base configuration.
pub fn merge(base: Config, layer: FileLayer) -> (result: Config)
    ensures
        result@ == merged(base@, layer@),
{
    Config {
        song_path: layer.song_path.unwrap_or(base.song_path),
        data_path: layer.data_path.unwrap_or(base.data_path),
        no_collection_update: layer.no_collection_update.unwrap_or(base.no_collection_update),
        use_web_player: layer.use_web_player.unwrap_or(base.use_web_player),
        port: layer.port.unwrap_or(base.port),
        port_ws: layer.port_ws.unwrap_or(base.port_ws),
        song_format: layer.song_format.unwrap_or(base.song_format),
        player: PlayerConfig {
            fullscreen: layer.player.fullscreen.unwrap_or(base.player.fullscreen),
            scale: layer.player.scale.unwrap_or(base.player.scale),
            disable_background: layer.player.disable_background.unwrap_or(
                base.player.disable_background,
            ),
        },
    }
}

/// What was found at the path of the configuration file.
pub enum ConfigFile {
    /// There is no file at the path.
    Missing,
    /// There is a file, but it could not be read.
    Unreadable,
    /// There is a file, but its text is not well-formed.
    Malformed,
    /// There is a file, and this is what it parsed to.
    Parsed(Store),
}

/// The layer that the file contributes, or the failure to load it. A missing
/// file contributes nothing.
pub open spec fn loaded(file: ConfigFile) -> Result<FileLayerView, ConfigError> {
    match file {
        ConfigFile::Missing => Ok(empty_layer()),
        ConfigFile::Unreadable => Err(ConfigError::IoFailure),
        ConfigFile::Malformed => Err(ConfigError::DecodeFailure),
        ConfigFile::Parsed(store) => decoded(store),
    }
}

/// The defaults with the file's layer merged over them, or the failure to
/// load the file.
pub open spec fn defaults_or_file(dirs: LocationsView, layer: Result<FileLayerView, ConfigError>)
    -> Result<ConfigView, ConfigError> {
    match layer {
        Ok(fields) => Ok(merged(default_config(dirs), fields)),
        Err(error) => Err(error),
    }
}

/// A resolution result, with the texts of its configuration as sequences of characters.
pub open spec fn config_result_view(result: Result<Config, ConfigError>) -> Result<
    ConfigView,
    ConfigError,
> {
    match result {
        Ok(config) => Ok(config@),
        Err(error) => Err(error),
    }
}

/// Starts from the defaults and merges over them what the file sets.
///
/// With no file the defaults are returned as they are. A file that cannot be
/// read fails with `IoFailure`; one that is malformed, or that holds a field
/// of an incompatible type, fails with `DecodeFailure`, and nothing of it is
/// merged.
pub fn default_or_file(dirs: &Locations, file: ConfigFile) -> (result: Result<Config, ConfigError>)
    requires
        dirs@.is_set(),
    ensures
        config_result_view(result) == defaults_or_file(dirs@, loaded(file)),
{
    let base = Config::defaults(dirs);
    let layer = match file {
        ConfigFile::Missing => FileLayer::empty(),
        ConfigFile::Unreadable => { return Err(ConfigError::IoFailure); },
        ConfigFile::Malformed => { return Err(ConfigError::DecodeFailure); },
        ConfigFile::Parsed(store) => decode(&store)?,
    };
    Ok(merge(base, layer))
}

} // verus!
