//! The overrides that a caller lays over the merged configuration.

use crate::layer::text_opt;
use crate::settings::{Config, ConfigView};
use vstd::prelude::*;

verus! {

/// The values that a caller supplies at run time, one per field that can be
/// overridden. The song format and the player settings have no override.
#[derive(Debug, Clone, PartialEq, Eq)]
pub struct Overrides {
    pub song_path: Option<String>,
    pub data_path: Option<String>,
    /// Whether the song collection is to be rescanned. The configuration holds
    /// the opposite: whether the collection is left as it is.
    pub refresh_collection: Option<bool>,
    pub use_web_player: Option<bool>,
    pub port: Option<u16>,
    pub port_ws: Option<u16>,
}

/// What an [`Overrides`] value holds, with its texts as sequences of characters.
pub struct OverridesView {
    pub song_path: Option<Seq<char>>,
    pub data_path: Option<Seq<char>>,
    pub refresh_collection: Option<bool>,
    pub use_web_player: Option<bool>,
    pub port: Option<u16>,
    pub port_ws: Option<u16>,
}

impl View for Overrides {
    type V = OverridesView;

    open spec fn view(&self) -> OverridesView {
        OverridesView {
            song_path: text_opt(self.song_path),
            data_path: text_opt(self.data_path),
            refresh_collection: self.refresh_collection,
            use_web_player: self.use_web_player,
            port: self.port,
            port_ws: self.port_ws,
        }
    }
}

/// The overrides of a caller that supplies none.
pub open spec fn no_overrides() -> OverridesView {
    OverridesView {
        song_path: None,
        data_path: None,
        refresh_collection: None,
        use_web_player: None,
        port: None,
        port_ws: None,
    }
}

/// What the configuration holds for a request to rescan the collection, or
/// for none: the request is stored inverted, and no request changes nothing.
pub open spec fn collection_update_after(current: bool, refresh: Option<bool>) -> bool {
    match refresh {
        Some(rescan) => !rescan,
        None => current,
    }
}

/// The configuration with every override that is present written over its
/// field, and every other field as it was.
pub open spec fn overridden(config: ConfigView, overrides: OverridesView) -> ConfigView {
    ConfigView {
        song_path: overrides.song_path.unwrap_or(config.song_path),
        data_path: overrides.data_path.unwrap_or(config.data_path),
        no_collection_update: collection_update_after(
            config.no_collection_update,
            overrides.refresh_collection,
        ),
        use_web_player: overrides.use_web_player.unwrap_or(config.use_web_player),
        port: overrides.port.unwrap_or(config.port),
        port_ws: overrides.port_ws.unwrap_or(config.port_ws),
        song_format: config.song_format,
        player: config.player,
    }
}

impl Overrides {
    /// The overrides of a caller that supplies none.
    pub fn none() -> (overrides: Overrides)
        ensures
            overrides@ == no_overrides(),
    {
        Overrides {
            song_path: None,
            data_path: None,
            refresh_collection: None,
            use_web_player: None,
            port: None,
            port_ws: None,
        }
    }
}

/// Writes each override that is present over its field of the configuration.
///
/// An override always wins over what the configuration held. A request to
/// rescan the collection is stored inverted, as `no_collection_update`.
pub fn apply_overrides(config: Config, overrides: Overrides) -> (result: Config)
    ensures
        result@ == overridden(config@, overrides@),
{
    let no_collection_update = match overrides.refresh_collection {
        Some(rescan) => !rescan,
        None => config.no_collection_update,
    };
    Config {
        song_path: overrides.song_path.unwrap_or(config.song_path),
        data_path: overrides.data_path.unwrap_or(config.data_path),
        no_collection_update,
        use_web_player: overrides.use_web_player.unwrap_or(config.use_web_player),
        port: overrides.port.unwrap_or(config.port),
        port_ws: overrides.port_ws.unwrap_or(config.port_ws),
        song_format: config.song_format,
        player: config.player,
    }
}

} // verus!
