//! The configuration file as a layer: a record in which each field may be absent.

use crate::error::ConfigError;
use crate::settings::ConfigView;
use crate::store::{
    flag_at, int_at, is_plain_key, read_flag, read_int, read_real, read_table, read_text,
    real_at, table_at, text_at, text_view, Lookup,
};
use ::config::Config as Store;
use vstd::prelude::*;

verus! {

/// The player settings that a file sets.
#[derive(Debug, Clone, Copy, PartialEq, Eq, Structural)]
pub struct PlayerLayer {
    pub fullscreen: Option<bool>,
    pub scale: Option<u64>,
    pub disable_background: Option<bool>,
}

/// The fields that a file sets. A field that the file leaves out is `None`.
#[derive(Debug, Clone, PartialEq, Eq)]
pub struct FileLayer {
    pub song_path: Option<String>,
    pub data_path: Option<String>,
    pub no_collection_update: Option<bool>,
    pub use_web_player: Option<bool>,
    pub port: Option<u16>,
    pub port_ws: Option<u16>,
    pub song_format: Option<String>,
    pub player: PlayerLayer,
}

/// What a [`FileLayer`] holds, with its texts as sequences of characters.
pub struct FileLayerView {
    pub song_path: Option<Seq<char>>,
    pub data_path: Option<Seq<char>>,
    pub no_collection_update: Option<bool>,
    pub use_web_player: Option<bool>,
    pub port: Option<u16>,
    pub port_ws: Option<u16>,
    pub song_format: Option<Seq<char>>,
    pub player: PlayerLayer,
}

/// An optional text, as an optional sequence of characters.
pub open spec fn text_opt(text: Option<String>) -> Option<Seq<char>> {
    match text {
        Some(t) => Some(t@),
        None => None,
    }
}

impl View for FileLayer {
    type V = FileLayerView;

    open spec fn view(&self) -> FileLayerView {
        FileLayerView {
            song_path: text_opt(self.song_path),
            data_path: text_opt(self.data_path),
            no_collection_update: self.no_collection_update,
            use_web_player: self.use_web_player,
            port: self.port,
            port_ws: self.port_ws,
            song_format: text_opt(self.song_format),
            player: self.player,
        }
    }
}

/// The layer of a file that sets nothing.
pub open spec fn empty_layer() -> FileLayerView {
    FileLayerView {
        song_path: None,
        data_path: None,
        no_collection_update: None,
        use_web_player: None,
        port: None,
        port_ws: None,
        song_format: None,
        player: PlayerLayer { fullscreen: None, scale: None, disable_background: None },
    }
}

/// The layer of a file that sets every field, each to what the configuration holds.
pub open spec fn full_layer(config: ConfigView) -> FileLayerView {
    FileLayerView {
        song_path: Some(config.song_path),
        data_path: Some(config.data_path),
        no_collection_update: Some(config.no_collection_update),
        use_web_player: Some(config.use_web_player),
        port: Some(config.port),
        port_ws: Some(config.port_ws),
        song_format: Some(config.song_format),
        player: PlayerLayer {
            fullscreen: Some(config.player.fullscreen),
            scale: Some(config.player.scale),
            disable_background: Some(config.player.disable_background),
        },
    }
}

impl FileLayer {
    /// The layer of a file that sets nothing.
    pub fn empty() -> (layer: FileLayer)
        ensures
            layer@ == empty_layer(),
    {
        FileLayer {
            song_path: None,
            data_path: None,
            no_collection_update: None,
            use_web_player: None,
            port: None,
            port_ws: None,
            song_format: None,
            player: PlayerLayer { fullscreen: None, scale: None, disable_background: None },
        }
    }
}

/// What the typed reads of the keys of a configuration file gave.
///
/// The ports are read as 64-bit integers, the scale factor as a real number
/// in its binary64 bit pattern. `player` says whether the file has a section
/// of that name; the three fields after it are read inside that section, and
/// mean nothing where there is none.
#[derive(Debug, Clone, PartialEq, Eq)]
pub struct Readings {
    pub song_path: Lookup<String>,
    pub data_path: Lookup<String>,
    pub no_collection_update: Lookup<bool>,
    pub use_web_player: Lookup<bool>,
    pub port: Lookup<i64>,
    pub port_ws: Lookup<i64>,
    pub song_format: Lookup<String>,
    pub player: Lookup<()>,
    pub fullscreen: Lookup<bool>,
    pub scale: Lookup<u64>,
    pub disable_background: Lookup<bool>,
}

/// What a [`Readings`] value holds, with its texts as sequences of characters.
pub struct ReadingsView {
    pub song_path: Lookup<Seq<char>>,
    pub data_path: Lookup<Seq<char>>,
    pub no_collection_update: Lookup<bool>,
    pub use_web_player: Lookup<bool>,
    pub port: Lookup<i64>,
    pub port_ws: Lookup<i64>,
    pub song_format: Lookup<Seq<char>>,
    pub player: Lookup<()>,
    pub fullscreen: Lookup<bool>,
    pub scale: Lookup<u64>,
    pub disable_background: Lookup<bool>,
}

impl View for Readings {
    type V = ReadingsView;

    open spec fn view(&self) -> ReadingsView {
        ReadingsView {
            song_path: text_view(self.song_path),
            data_path: text_view(self.data_path),
            no_collection_update: self.no_collection_update,
            use_web_player: self.use_web_player,
            port: self.port,
            port_ws: self.port_ws,
            song_format: text_view(self.song_format),
            player: self.player,
            fullscreen: self.fullscreen,
            scale: self.scale,
            disable_background: self.disable_background,
        }
    }
}

/// The reads that [`read_all`] makes of a store, each under the key of its field.
pub open spec fn readings_of(store: Store) -> ReadingsView {
    ReadingsView {
        song_path: text_at(store, "song_path"@),
        data_path: text_at(store, "data_path"@),
        no_collection_update: flag_at(store, "no_collection_update"@),
        use_web_player: flag_at(store, "use_web_player"@),
        port: int_at(store, "port"@),
        port_ws: int_at(store, "port_ws"@),
        song_format: text_at(store, "song_format"@),
        player: table_at(store, "player"@),
        fullscreen: flag_at(store, "player.fullscreen"@),
        scale: real_at(store, "player.scale"@),
        disable_background: flag_at(store, "player.disable_background"@),
    }
}

/// The key of every field is a plain key.
proof fn lemma_field_keys_are_plain()
    ensures
        is_plain_key("song_path"@),
        is_plain_key("data_path"@),
        is_plain_key("no_collection_update"@),
        is_plain_key("use_web_player"@),
        is_plain_key("port"@),
        is_plain_key("port_ws"@),
        is_plain_key("song_format"@),
        is_plain_key("player"@),
        is_plain_key("player.fullscreen"@),
        is_plain_key("player.scale"@),
        is_plain_key("player.disable_background"@),
{
    reveal_strlit("song_path");
    reveal_strlit("data_path");
    reveal_strlit("no_collection_update");
    reveal_strlit("use_web_player");
    reveal_strlit("port");
    reveal_strlit("port_ws");
    reveal_strlit("song_format");
    reveal_strlit("player");
    reveal_strlit("player.fullscreen");
    reveal_strlit("player.scale");
    reveal_strlit("player.disable_background");
}

/// Reads every field of the configuration from a parsed file, each as its own type.
/// Keys of the file that name no field are never asked for.
pub fn read_all(store: &Store) -> (readings: Readings)
    ensures
        readings@ == readings_of(*store),
{
    proof {
        lemma_field_keys_are_plain();
    }
    Readings {
        song_path: read_text(store, "song_path"),
        data_path: read_text(store, "data_path"),
        no_collection_update: read_flag(store, "no_collection_update"),
        use_web_player: read_flag(store, "use_web_player"),
        port: read_int(store, "port"),
        port_ws: read_int(store, "port_ws"),
        song_format: read_text(store, "song_format"),
        player: read_table(store, "player"),
        fullscreen: read_flag(store, "player.fullscreen"),
        scale: read_real(store, "player.scale"),
        disable_background: read_flag(store, "player.disable_background"),
    }
}

/// Whether a read found a value of the wrong type.
pub open spec fn is_unfit<T>(read: Lookup<T>) -> bool {
    read is Unfit
}

/// Whether a port read holds a number that is no 16-bit unsigned integer.
pub open spec fn port_out_of_range(read: Lookup<i64>) -> bool {
    read matches Lookup::Found(number) && !(0 <= number <= u16::MAX)
}

/// What a key inside a section reads as: what was read under it where the
/// section is there, and nothing where the file has no such section.
pub open spec fn in_section<T>(section: Lookup<()>, read: Lookup<T>) -> Lookup<T> {
    if section is Found {
        read
    } else {
        Lookup::Absent
    }
}

/// Whether no layer can be made of the readings: a field was found with a
/// value that its type does not admit.
pub open spec fn rejected(readings: ReadingsView) -> bool {
    ||| is_unfit(readings.song_path)
    ||| is_unfit(readings.data_path)
    ||| is_unfit(readings.no_collection_update)
    ||| is_unfit(readings.use_web_player)
    ||| is_unfit(readings.port)
    ||| port_out_of_range(readings.port)
    ||| is_unfit(readings.port_ws)
    ||| port_out_of_range(readings.port_ws)
    ||| is_unfit(readings.song_format)
    ||| is_unfit(readings.player)
    ||| is_unfit(in_section(readings.player, readings.fullscreen))
    ||| is_unfit(in_section(readings.player, readings.scale))
    ||| is_unfit(in_section(readings.player, readings.disable_background))
}

/// The value that a read found, if it found one.
pub open spec fn found<T>(read: Lookup<T>) -> Option<T> {
    match read {
        Lookup::Found(value) => Some(value),
        _ => None,
    }
}

/// The port that a read found, if it found one in range.
pub open spec fn found_port(read: Lookup<i64>) -> Option<u16> {
    match read {
        Lookup::Found(number) if 0 <= number <= u16::MAX => Some(number as u16),
        _ => None,
    }
}

/// The layer that the readings describe: each field that was found is set,
/// each field that is absent is left out. A file without a player section
/// sets no player field.
pub open spec fn layer_fields(readings: ReadingsView) -> FileLayerView {
    FileLayerView {
        song_path: found(readings.song_path),
        data_path: found(readings.data_path),
        no_collection_update: found(readings.no_collection_update),
        use_web_player: found(readings.use_web_player),
        port: found_port(readings.port),
        port_ws: found_port(readings.port_ws),
        song_format: found(readings.song_format),
        player: PlayerLayer {
            fullscreen: found(in_section(readings.player, readings.fullscreen)),
            scale: found(in_section(readings.player, readings.scale)),
            disable_background: found(in_section(readings.player, readings.disable_background)),
        },
    }
}

/// The layer of the readings, or the failure to decode them. Decoding is all
/// or nothing: one unfit field rejects the file.
pub open spec fn layer_of(readings: ReadingsView) -> Result<FileLayerView, ConfigError> {
    if rejected(readings) {
        Err(ConfigError::DecodeFailure)
    } else {
        Ok(layer_fields(readings))
    }
}

/// A decoding result, with the texts of its layer as sequences of characters.
pub open spec fn layer_result_view(result: Result<FileLayer, ConfigError>) -> Result<
    FileLayerView,
    ConfigError,
> {
    match result {
        Ok(layer) => Ok(layer@),
        Err(error) => Err(error),
    }
}

/// Turns one read into the field of a layer.
fn field_of<T>(read: Lookup<T>) -> (field: Result<Option<T>, ConfigError>)
    ensures
        is_unfit(read) <==> field is Err,
        field matches Ok(value) ==> value == found(read),
        field matches Err(error) ==> error == ConfigError::DecodeFailure,
{
    match read {
        Lookup::Absent => Ok(None),
        Lookup::Found(value) => Ok(Some(value)),
        Lookup::Unfit => Err(ConfigError::DecodeFailure),
    }
}

/// Turns the read of a text into the field of a layer.
fn text_field_of(read: Lookup<String>) -> (field: Result<Option<String>, ConfigError>)
    ensures
        is_unfit(text_view(read)) <==> field is Err,
        field matches Ok(value) ==> text_opt(value) == found(text_view(read)),
        field matches Err(error) ==> error == ConfigError::DecodeFailure,
{
    match read {
        Lookup::Absent => Ok(None),
        Lookup::Found(value) => Ok(Some(value)),
        Lookup::Unfit => Err(ConfigError::DecodeFailure),
    }
}

/// Turns the read of a port into the field of a layer. A number outside the
/// range of a port is a value of the wrong type.
fn port_field_of(read: Lookup<i64>) -> (field: Result<Option<u16>, ConfigError>)
    ensures
        (is_unfit(read) || port_out_of_range(read)) <==> field is Err,
        field matches Ok(value) ==> value == found_port(read),
        field matches Err(error) ==> error == ConfigError::DecodeFailure,
{
    match read {
        Lookup::Absent => Ok(None),
        Lookup::Found(number) => {
            if 0 <= number && number <= 65535 {
                Ok(Some(number as u16))
            } else {
                Err(ConfigError::DecodeFailure)
            }
        },
        Lookup::Unfit => Err(ConfigError::DecodeFailure),
    }
}

impl FileLayer {
    /// Makes a layer of the readings of a file, or rejects the file.
    ///
    /// The file is rejected, with `DecodeFailure`, exactly if one of its
    /// fields holds a value that cannot be read as the field's type, a port
    /// outside `0..=65535` included. Otherwise each field that was found is
    /// set in the layer, and each absent field is left out. The player
    /// fields count only where the file has a player section: without one,
    /// the layer sets none of them.
    pub fn from_readings(readings: Readings) -> (result: Result<FileLayer, ConfigError>)
        ensures
            layer_result_view(result) == layer_of(readings@),
    {
        let song_path = text_field_of(readings.song_path)?;
        let data_path = text_field_of(readings.data_path)?;
        let no_collection_update = field_of(readings.no_collection_update)?;
        let use_web_player = field_of(readings.use_web_player)?;
        let port = port_field_of(readings.port)?;
        let port_ws = port_field_of(readings.port_ws)?;
        let song_format = text_field_of(readings.song_format)?;
        let player = match field_of(readings.player)? {
            Some(_) => PlayerLayer {
                fullscreen: field_of(readings.fullscreen)?,
                scale: field_of(readings.scale)?,
                disable_background: field_of(readings.disable_background)?,
            },
            None => PlayerLayer { fullscreen: None, scale: None, disable_background: None },
        };
        Ok(
            FileLayer {
                song_path,
                data_path,
                no_collection_update,
                use_web_player,
                port,
                port_ws,
                song_format,
                player,
            },
        )
    }
}

/// The layer that a parsed file decodes to, or the failure to decode it.
pub open spec fn decoded(store: Store) -> Result<FileLayerView, ConfigError> {
    layer_of(readings_of(store))
}

/// Decodes a parsed file into a layer: reads every field, then makes a layer
/// of the readings or rejects the file.
pub fn decode(store: &Store) -> (result: Result<FileLayer, ConfigError>)
    ensures
        layer_result_view(result) == decoded(*store),
{
    FileLayer::from_readings(read_all(store))
}

} // verus!
