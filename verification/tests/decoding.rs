use karaoke_config::{
    apply_overrides, decode, merge, read_all, Config, ConfigError, FileLayer, Locations, Lookup,
    Overrides, PlayerLayer, Readings,
};

fn store_of(text: &str) -> config::Config {
    let mut store = config::Config::new();
    store
        .merge(config::File::from_str(text, config::FileFormat::Yaml))
        .unwrap();
    store
}

fn nothing_read() -> Readings {
    Readings {
        song_path: Lookup::Absent,
        data_path: Lookup::Absent,
        no_collection_update: Lookup::Absent,
        use_web_player: Lookup::Absent,
        port: Lookup::Absent,
        port_ws: Lookup::Absent,
        song_format: Lookup::Absent,
        player: Lookup::Absent,
        fullscreen: Lookup::Absent,
        scale: Lookup::Absent,
        disable_background: Lookup::Absent,
    }
}

fn locations() -> Locations {
    Locations {
        config_file: String::from("/etc/karaoke-rs/config.yaml"),
        data_dir: String::from("/var/lib/karaoke-rs"),
        song_dir: String::from("/var/lib/karaoke-rs/songs"),
    }
}

#[test]
fn every_field_is_read_under_its_own_key() {
    let text = "song_path: /a\ndata_path: /b\nno_collection_update: true\nuse_web_player: true\nport: 1\nport_ws: 2\nsong_format: \"[Title]\"\nplayer:\n  fullscreen: true\n  scale: 0.5\n  disable_background: true\n";
    let readings = read_all(&store_of(text));
    let expected = Readings {
        song_path: Lookup::Found(String::from("/a")),
        data_path: Lookup::Found(String::from("/b")),
        no_collection_update: Lookup::Found(true),
        use_web_player: Lookup::Found(true),
        port: Lookup::Found(1),
        port_ws: Lookup::Found(2),
        song_format: Lookup::Found(String::from("[Title]")),
        player: Lookup::Found(()),
        fullscreen: Lookup::Found(true),
        scale: Lookup::Found(0.5f64.to_bits()),
        disable_background: Lookup::Found(true),
    };
    assert_eq!(readings, expected);
}

#[test]
fn empty_file_reads_as_absent_everywhere() {
    assert_eq!(read_all(&store_of("")), nothing_read());
}

#[test]
fn unknown_keys_are_ignored() {
    let layer = decode(&store_of("volume: 11\ntheme:\n  dark: true\nport: 9999\n")).unwrap();
    let expected = FileLayer {
        port: Some(9999),
        ..FileLayer::empty()
    };
    assert_eq!(layer, expected);
}

#[test]
fn wrong_types_read_as_unfit() {
    let readings = read_all(&store_of(
        "port: not-a-number\nuse_web_player: [1]\nsong_path:\n  nested: 1\nplayer: 5\n",
    ));
    assert_eq!(readings.port, Lookup::Unfit);
    assert_eq!(readings.use_web_player, Lookup::Unfit);
    assert_eq!(readings.song_path, Lookup::Unfit);
    assert_eq!(readings.player, Lookup::Unfit);
    assert_eq!(readings.port_ws, Lookup::Absent);
}

#[test]
fn null_field_rejects_the_file() {
    assert_eq!(
        decode(&store_of("port: ~\n")),
        Err(ConfigError::DecodeFailure)
    );
}

#[test]
fn player_that_is_no_section_rejects_the_file() {
    assert_eq!(
        decode(&store_of("player: 5\n")),
        Err(ConfigError::DecodeFailure)
    );
}

#[test]
fn partial_player_section_sets_only_its_fields() {
    let layer = decode(&store_of("player:\n  disable_background: true\n")).unwrap();
    assert_eq!(
        layer.player,
        PlayerLayer {
            fullscreen: None,
            scale: None,
            disable_background: Some(true),
        }
    );
    let config = merge(Config::defaults(&locations()), layer);
    assert!(config.player.disable_background);
    assert!(!config.player.fullscreen);
    assert_eq!(f64::from_bits(config.player.scale), 1.5);
}

#[test]
fn scale_is_handed_on_as_bits() {
    let layer = decode(&store_of("player:\n  scale: 2.25\n")).unwrap();
    assert_eq!(layer.player.scale, Some(2.25f64.to_bits()));
    assert_eq!(layer.player.scale, Some(0x4002_0000_0000_0000));
}

#[test]
fn port_out_of_range_rejects_the_file() {
    assert_eq!(
        decode(&store_of("port: 65536\n")),
        Err(ConfigError::DecodeFailure)
    );
    assert_eq!(
        decode(&store_of("port_ws: -1\n")),
        Err(ConfigError::DecodeFailure)
    );
    let layer = decode(&store_of("port: 65535\nport_ws: 0\n")).unwrap();
    assert_eq!(layer.port, Some(65535));
    assert_eq!(layer.port_ws, Some(0));
}

#[test]
fn readings_with_nothing_found_give_the_empty_layer() {
    assert_eq!(
        FileLayer::from_readings(nothing_read()),
        Ok(FileLayer::empty())
    );
}

#[test]
fn found_readings_become_fields() {
    let readings = Readings {
        song_path: Lookup::Found(String::from("/songs")),
        port: Lookup::Found(9090),
        player: Lookup::Found(()),
        scale: Lookup::Found(7),
        ..nothing_read()
    };
    let layer = FileLayer::from_readings(readings).unwrap();
    let expected = FileLayer {
        song_path: Some(String::from("/songs")),
        port: Some(9090),
        player: PlayerLayer {
            fullscreen: None,
            scale: Some(7),
            disable_background: None,
        },
        ..FileLayer::empty()
    };
    assert_eq!(layer, expected);
}

#[test]
fn one_unfit_reading_rejects_all() {
    let fields: [fn(&mut Readings); 11] = [
        |r| r.song_path = Lookup::Unfit,
        |r| r.data_path = Lookup::Unfit,
        |r| r.no_collection_update = Lookup::Unfit,
        |r| r.use_web_player = Lookup::Unfit,
        |r| r.port = Lookup::Unfit,
        |r| r.port_ws = Lookup::Unfit,
        |r| r.song_format = Lookup::Unfit,
        |r| r.player = Lookup::Unfit,
        |r| r.fullscreen = Lookup::Unfit,
        |r| r.scale = Lookup::Unfit,
        |r| r.disable_background = Lookup::Unfit,
    ];
    for spoil in fields {
        let mut readings = Readings {
            song_path: Lookup::Found(String::from("/songs")),
            port: Lookup::Found(9090),
            player: Lookup::Found(()),
            ..nothing_read()
        };
        spoil(&mut readings);
        assert_eq!(
            FileLayer::from_readings(readings),
            Err(ConfigError::DecodeFailure)
        );
    }
}

#[test]
fn merge_takes_each_field_from_the_layer_or_the_base() {
    let base = Config::defaults(&locations());
    let layer = FileLayer {
        data_path: Some(String::from("/elsewhere")),
        use_web_player: Some(true),
        port_ws: Some(9001),
        ..FileLayer::empty()
    };
    let merged = merge(base.clone(), layer);
    let expected = Config {
        data_path: String::from("/elsewhere"),
        use_web_player: true,
        port_ws: 9001,
        ..base
    };
    assert_eq!(merged, expected);
}

#[test]
fn merge_with_the_empty_layer_changes_nothing() {
    let base = Config::defaults(&locations());
    assert_eq!(merge(base.clone(), FileLayer::empty()), base);
}

#[test]
fn no_overrides_change_nothing() {
    let base = Config::defaults(&locations());
    assert_eq!(apply_overrides(base.clone(), Overrides::none()), base);
}

#[test]
fn overrides_write_over_their_fields_only() {
    let base = Config::defaults(&locations());
    let overrides = Overrides {
        song_path: Some(String::from("/s")),
        data_path: Some(String::from("/d")),
        refresh_collection: Some(false),
        use_web_player: Some(true),
        port: Some(1),
        port_ws: Some(2),
    };
    let result = apply_overrides(base.clone(), overrides);
    let expected = Config {
        song_path: String::from("/s"),
        data_path: String::from("/d"),
        no_collection_update: true,
        use_web_player: true,
        port: 1,
        port_ws: 2,
        song_format: base.song_format.clone(),
        player: base.player,
    };
    assert_eq!(result, expected);
}

#[test]
fn texts_that_hold_numbers_are_read_as_numbers() {
    let layer = decode(&store_of("port: \"9090\"\nuse_web_player: \"yes\"\n")).unwrap();
    assert_eq!(layer.port, Some(9090));
    assert_eq!(layer.use_web_player, Some(true));
}

#[test]
fn readings_without_a_player_section_set_no_player_field() {
    let readings = Readings {
        port: Lookup::Found(9999),
        player: Lookup::Absent,
        fullscreen: Lookup::Found(true),
        scale: Lookup::Unfit,
        disable_background: Lookup::Found(true),
        ..nothing_read()
    };
    let layer = FileLayer::from_readings(readings).unwrap();
    let expected = FileLayer {
        port: Some(9999),
        ..FileLayer::empty()
    };
    assert_eq!(layer, expected);
    let defaults = Config::defaults(&locations());
    let config = merge(defaults.clone(), layer);
    assert_eq!(config.player, defaults.player);
    assert_eq!(config.port, 9999);
}

#[test]
fn file_without_a_player_section_keeps_the_default_player() {
    let layer = decode(&store_of("port: 9999\nsong_path: /songs\n")).unwrap();
    let defaults = Config::defaults(&locations());
    let config = merge(defaults.clone(), layer);
    assert_eq!(config.player, defaults.player);
    assert_eq!(config.port_ws, defaults.port_ws);
    assert_eq!(config.song_format, defaults.song_format);
    assert_eq!(config.data_path, defaults.data_path);
    assert_eq!(config.song_path, "/songs");
}

#[test]
fn keys_with_dots_are_read_inside_their_section() {
    let readings = read_all(&store_of("fullscreen: true\nplayer:\n  scale: 3.0\n"));
    assert_eq!(readings.fullscreen, Lookup::Absent);
    assert_eq!(readings.scale, Lookup::Found(3.0f64.to_bits()));
    assert_eq!(readings.player, Lookup::Found(()));
}

#[test]
fn sequences_in_a_file_are_never_indexed() {
    let readings = read_all(&store_of("a:\n  - 1\n  - 2\nport:\n  - 8080\n"));
    assert_eq!(readings.port, Lookup::Unfit);
    assert_eq!(readings.port_ws, Lookup::Absent);
}
