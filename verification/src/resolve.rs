//! Resolving the configuration: bootstrap, then file over defaults, then overrides.

use crate::bootstrap::{bootstrap_failure, failure_of, Bootstrap};
use crate::error::ConfigError;
use crate::layer::{text_opt, FileLayerView};
use crate::merge::{config_result_view, default_or_file, defaults_or_file, loaded, ConfigFile};
use crate::overrides::{apply_overrides, overridden, Overrides, OverridesView};
use crate::settings::{Config, ConfigView, Locations, LocationsView};
use vstd::prelude::*;

verus! {

/// The path of the configuration file: the one that the caller names, or
/// else the default location.
pub fn config_file_path(explicit: Option<String>, dirs: &Locations) -> (path: String)
    ensures
        path@ == text_opt(explicit).unwrap_or(dirs@.config_file),
{
    match explicit {
        Some(path) => path,
        None => dirs.config_file.clone(),
    }
}

/// The outcome of a resolution, given how the bootstrap went, what layer the
/// file contributed, and which overrides the caller supplied.
///
/// A failed bootstrap ends the resolution with its error, whatever the file
/// holds. Otherwise a file that failed to load ends it with that error.
/// Otherwise the defaults are taken, the file's layer is merged over them,
/// and the overrides are written over the result.
pub open spec fn resolved(
    dirs: LocationsView,
    bootstrap: Bootstrap,
    layer: Result<FileLayerView, ConfigError>,
    overrides: OverridesView,
) -> Result<ConfigView, ConfigError> {
    match failure_of(bootstrap) {
        Some(error) => Err(error),
        None => match defaults_or_file(dirs, layer) {
            Ok(config) => Ok(overridden(config, overrides)),
            Err(error) => Err(error),
        },
    }
}

/// Resolves the configuration from the defaults, the configuration file and
/// the caller's overrides.
///
/// `dirs` holds the default locations, every one of them set. `bootstrap`
/// says how making sure that the file exists went, and `file` what was then
/// found at its path. The result is `Ok` exactly if the
/// bootstrap went through and the file, if there is one, could be read and
/// decoded; the configuration is then complete. Any failure is returned as
/// it is, and no configuration with it.
pub fn load_config(
    dirs: &Locations,
    bootstrap: Bootstrap,
    file: ConfigFile,
    song_path: Option<String>,
    data_path: Option<String>,
    refresh_collection: Option<bool>,
    use_web_player: Option<bool>,
    port: Option<u16>,
    port_ws: Option<u16>,
) -> (result: Result<Config, ConfigError>)
    requires
        dirs@.is_set(),
    ensures
        config_result_view(result) == resolved(
            dirs@,
            bootstrap,
            loaded(file),
            (OverridesView {
                song_path: text_opt(song_path),
                data_path: text_opt(data_path),
                refresh_collection,
                use_web_player,
                port,
                port_ws,
            }),
        ),
{
    if let Some(error) = bootstrap_failure(bootstrap) {
        return Err(error);
    }
    let config = default_or_file(dirs, file)?;
    let overrides = Overrides {
        song_path,
        data_path,
        refresh_collection,
        use_web_player,
        port,
        port_ws,
    };
    Ok(apply_overrides(config, overrides))
}

} // verus!
