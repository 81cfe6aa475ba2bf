//! What holds of every resolution, proved from the definitions of its steps.

use crate::bootstrap::{bootstrapped, failure_of, planned_action, Bootstrap, BootstrapAction};
use crate::error::ConfigError;
use crate::layer::{
    decoded, empty_layer, full_layer, is_unfit, layer_of, port_out_of_range, readings_of,
    rejected, FileLayerView, ReadingsView,
};
use crate::merge::{defaults_or_file, loaded, merged, ConfigFile};
use crate::overrides::{no_overrides, overridden, OverridesView};
use crate::resolve::resolved;
use crate::settings::{default_config, ConfigView, LocationsView};
use ::config::Config as Store;
use vstd::prelude::*;

verus! {

/// A file that sets no field leaves the base as it is, and so does a file
/// that sets every field to what the base holds. A caller that supplies no
/// override leaves the configuration as it is.
pub proof fn nothing_supplied_changes_nothing(config: ConfigView)
    ensures
        merged(config, empty_layer()) == config,
        merged(config, full_layer(config)) == config,
        overridden(config, no_overrides()) == config,
{
}

/// Where no file exists, one is written from the defaults. With no override,
/// a file that holds the defaults, or that holds nothing, resolves to the
/// defaults themselves.
pub proof fn first_run_resolves_to_defaults(dirs: LocationsView, template: Seq<char>)
    ensures
        planned_action(false) == BootstrapAction::WriteDefaults,
        bootstrapped(None, template) == Some(template),
        resolved(
            dirs,
            Bootstrap::Created,
            Ok(full_layer(default_config(dirs))),
            no_overrides(),
        ) == Ok::<ConfigView, ConfigError>(default_config(dirs)),
        resolved(dirs, Bootstrap::Created, Ok(empty_layer()), no_overrides()) == Ok::<
            ConfigView,
            ConfigError,
        >(default_config(dirs)),
{
}

/// A bootstrap leaves a file behind, never touches a file that exists, and
/// so changes nothing when it is repeated, whatever the defaults are then.
pub proof fn bootstrap_is_idempotent(
    before: Option<Seq<char>>,
    first: Seq<char>,
    second: Seq<char>,
)
    ensures
        bootstrapped(before, first) is Some,
        before is Some ==> bootstrapped(before, first) == before,
        bootstrapped(bootstrapped(before, first), second) == bootstrapped(before, first),
{
}

/// With no override, each field that the file sets resolves to the file's
/// value, and each field that it leaves out resolves to the default.
pub proof fn file_wins_over_defaults(
    dirs: LocationsView,
    bootstrap: Bootstrap,
    layer: FileLayerView,
)
    requires
        failure_of(bootstrap) is None,
    ensures
        resolved(dirs, bootstrap, Ok(layer), no_overrides()) matches Ok(config) && {
            let base = default_config(dirs);
            &&& config.song_path == layer.song_path.unwrap_or(base.song_path)
            &&& config.data_path == layer.data_path.unwrap_or(base.data_path)
            &&& config.no_collection_update == layer.no_collection_update.unwrap_or(
                base.no_collection_update,
            )
            &&& config.use_web_player == layer.use_web_player.unwrap_or(base.use_web_player)
            &&& config.port == layer.port.unwrap_or(base.port)
            &&& config.port_ws == layer.port_ws.unwrap_or(base.port_ws)
            &&& config.song_format == layer.song_format.unwrap_or(base.song_format)
            &&& config.player.fullscreen == layer.player.fullscreen.unwrap_or(
                base.player.fullscreen,
            )
            &&& config.player.scale == layer.player.scale.unwrap_or(base.player.scale)
            &&& config.player.disable_background == layer.player.disable_background.unwrap_or(
                base.player.disable_background,
            )
        },
{
}

/// An override that is present decides its field, whatever the file and the
/// defaults hold. The song format and the player settings cannot be
/// overridden: they resolve as they do without any override.
pub proof fn override_wins_over_file(
    dirs: LocationsView,
    bootstrap: Bootstrap,
    layer: FileLayerView,
    overrides: OverridesView,
)
    requires
        failure_of(bootstrap) is None,
    ensures
        resolved(dirs, bootstrap, Ok(layer), overrides) matches Ok(config) && {
            &&& overrides.song_path matches Some(path) ==> config.song_path == path
            &&& overrides.data_path matches Some(path) ==> config.data_path == path
            &&& overrides.use_web_player matches Some(flag) ==> config.use_web_player == flag
            &&& overrides.port matches Some(port) ==> config.port == port
            &&& overrides.port_ws matches Some(port) ==> config.port_ws == port
            &&& resolved(dirs, bootstrap, Ok(layer), no_overrides()) matches Ok(plain) && {
                &&& config.song_format == plain.song_format
                &&& config.player == plain.player
            }
        },
{
}

/// A request to rescan the collection is stored inverted: asking for a
/// rescan clears `no_collection_update`, asking for none sets it. Without a
/// request the field resolves as the file and the defaults have it.
pub proof fn refresh_is_stored_inverted(
    dirs: LocationsView,
    bootstrap: Bootstrap,
    layer: FileLayerView,
    overrides: OverridesView,
)
    requires
        failure_of(bootstrap) is None,
    ensures
        resolved(dirs, bootstrap, Ok(layer), overrides) matches Ok(config) && {
            &&& overrides.refresh_collection == Some(true) ==> !config.no_collection_update
            &&& overrides.refresh_collection == Some(false) ==> config.no_collection_update
            &&& overrides.refresh_collection is None ==> config.no_collection_update
                == layer.no_collection_update.unwrap_or(
                default_config(dirs).no_collection_update,
            )
        },
{
}

/// A file that sets nothing but the port resolves, with no override, to the
/// defaults with that port.
pub proof fn partial_file_keeps_other_defaults(
    dirs: LocationsView,
    bootstrap: Bootstrap,
    port: u16,
)
    requires
        failure_of(bootstrap) is None,
    ensures
        resolved(
            dirs,
            bootstrap,
            Ok((FileLayerView { port: Some(port), ..empty_layer() })),
            no_overrides(),
        ) == Ok::<ConfigView, ConfigError>((ConfigView { port, ..default_config(dirs) })),
{
}

/// Every field that a file leaves out keeps its default. That holds of each
/// of the eight keys of the configuration, the player section among them: a
/// file without that section resolves to the default player settings. It
/// holds inside the section too: a player field that the section leaves out
/// keeps its default.
pub proof fn absent_fields_keep_defaults(dirs: LocationsView, readings: ReadingsView)
    requires
        !rejected(readings),
    ensures
        defaults_or_file(dirs, layer_of(readings)) matches Ok(config) && {
            let base = default_config(dirs);
            &&& readings.song_path is Absent ==> config.song_path == base.song_path
            &&& readings.data_path is Absent ==> config.data_path == base.data_path
            &&& readings.no_collection_update is Absent ==> config.no_collection_update
                == base.no_collection_update
            &&& readings.use_web_player is Absent ==> config.use_web_player == base.use_web_player
            &&& readings.port is Absent ==> config.port == base.port
            &&& readings.port_ws is Absent ==> config.port_ws == base.port_ws
            &&& readings.song_format is Absent ==> config.song_format == base.song_format
            &&& readings.player is Absent ==> config.player == base.player
            &&& readings.fullscreen is Absent ==> config.player.fullscreen
                == base.player.fullscreen
            &&& readings.scale is Absent ==> config.player.scale == base.player.scale
            &&& readings.disable_background is Absent ==> config.player.disable_background
                == base.player.disable_background
        },
{
}

/// Both paths of the defaults are set where the locations are, and both
/// paths of a resolved configuration are set unless the file or the caller
/// supplies an empty one.
pub proof fn resolved_paths_are_set(
    dirs: LocationsView,
    bootstrap: Bootstrap,
    layer: Result<FileLayerView, ConfigError>,
    overrides: OverridesView,
)
    requires
        dirs.is_set(),
        layer matches Ok(fields) ==> {
            &&& fields.song_path matches Some(path) ==> path.len() > 0
            &&& fields.data_path matches Some(path) ==> path.len() > 0
        },
        overrides.song_path matches Some(path) ==> path.len() > 0,
        overrides.data_path matches Some(path) ==> path.len() > 0,
    ensures
        default_config(dirs).paths_set(),
        resolved(dirs, bootstrap, layer, overrides) matches Ok(config) ==> config.paths_set(),
{
}

/// Only the fields of the configuration are read from a file: two parsed
/// files that answer alike for every field decode alike, whatever else they
/// hold.
pub proof fn only_known_fields_matter(first: Store, second: Store)
    requires
        readings_of(first) == readings_of(second),
    ensures
        decoded(first) == decoded(second),
        loaded(ConfigFile::Parsed(first)) == loaded(ConfigFile::Parsed(second)),
{
}

/// One field of the wrong type rejects the whole file: the readings give no
/// layer, and the resolution fails with a decode error, whatever the other
/// fields, the defaults and the overrides are.
pub proof fn unfit_field_rejects_file(
    dirs: LocationsView,
    bootstrap: Bootstrap,
    readings: ReadingsView,
    overrides: OverridesView,
)
    requires
        failure_of(bootstrap) is None,
        rejected(readings),
    ensures
        layer_of(readings) == Err::<FileLayerView, ConfigError>(ConfigError::DecodeFailure),
        resolved(dirs, bootstrap, layer_of(readings), overrides) == Err::<
            ConfigView,
            ConfigError,
        >(ConfigError::DecodeFailure),
{
}

/// A port that reads as something other than a number in `0..=65535` rejects
/// the file.
pub proof fn unfit_port_rejects_file(readings: ReadingsView)
    requires
        is_unfit(readings.port) || port_out_of_range(readings.port),
    ensures
        rejected(readings),
{
}

/// A file that is not well-formed, or that holds a field of the wrong type,
/// fails the resolution with a decode error.
pub proof fn malformed_file_fails_resolution(
    dirs: LocationsView,
    bootstrap: Bootstrap,
    file: ConfigFile,
    overrides: OverridesView,
)
    requires
        failure_of(bootstrap) is None,
        file is Malformed || (file matches ConfigFile::Parsed(store) && rejected(
            readings_of(store),
        )),
    ensures
        resolved(dirs, bootstrap, loaded(file), overrides) == Err::<ConfigView, ConfigError>(
            ConfigError::DecodeFailure,
        ),
{
}

/// A failed bootstrap fails the resolution with its own error, whatever the
/// file holds.
pub proof fn bootstrap_failure_ends_resolution(
    dirs: LocationsView,
    bootstrap: Bootstrap,
    layer: Result<FileLayerView, ConfigError>,
    overrides: OverridesView,
)
    requires
        failure_of(bootstrap) matches Some(_),
    ensures
        resolved(dirs, bootstrap, layer, overrides) == Err::<ConfigView, ConfigError>(
            failure_of(bootstrap)->0,
        ),
{
}

} // verus!
