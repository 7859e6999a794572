use tauri_plugin_media::dictionary::Dictionary;
use tauri_plugin_media::models::{
    MediaMetadata, PlaybackInfo, PlaybackStatus, Rate, RepeatMode, Seconds,
};
use tauri_plugin_media::platform::linux::{
    artwork_plan, create_metadata_dict, find_other_player, loop_name, other_player,
    method_arguments, method_name, parse_player_metadata, status_name, ArtworkPlan, BusQuery,
    LinuxMediaController, MetadataValue, PlayerMethod, PlayerScan, PropertiesChanged,
    PropertyValue, ScanStep,
};
use tauri_plugin_media::platform::{ControllerError, MediaController, NativeLiveness};

fn text(value: &str) -> MetadataValue {
    MetadataValue::Text(value.to_string())
}

fn list(items: &[&str]) -> MetadataValue {
    MetadataValue::List(items.iter().map(|item| Some(item.to_string())).collect())
}

fn ask(name: &str) -> ScanStep {
    ScanStep::Query(BusQuery {
        destination: name.to_string(),
        object_path: "/org/mpris/MediaPlayer2".to_string(),
        interface: "org.mpris.MediaPlayer2.Player".to_string(),
        member: "Metadata".to_string(),
        timeout_millis: 500,
    })
}

fn song() -> MediaMetadata {
    MediaMetadata {
        title: "Song A".to_string(),
        artist: Some("Artist X".to_string()),
        album: Some("Album Y".to_string()),
        album_artist: Some("Various".to_string()),
        duration: Some(Seconds::from_nanos(180_000_000_000)),
        artwork_url: Some("https://example.org/a.jpg".to_string()),
        artwork_data: None,
    }
}

fn bare(title: &str) -> MediaMetadata {
    MediaMetadata {
        title: title.to_string(),
        artist: None,
        album: None,
        album_artist: None,
        duration: None,
        artwork_url: None,
        artwork_data: None,
    }
}

fn playing() -> PlaybackInfo {
    PlaybackInfo {
        status: PlaybackStatus::Playing,
        position: Seconds::from_nanos(42_500_000_000),
        shuffle: true,
        repeat_mode: RepeatMode::List,
        playback_rate: Rate { permille: 1000 },
    }
}

fn bound() -> LinuxMediaController<u8> {
    let mut controller = LinuxMediaController::new();
    controller
        .initialize_session("demo".to_string(), "Demo Player".to_string(), Ok(()))
        .unwrap();
    controller
}

fn no_probe() -> NativeLiveness {
    NativeLiveness { session_active: false, controls_enabled: None }
}

fn flag(signal: &PropertiesChanged, key: &str) -> Option<bool> {
    match signal.changed.get(key) {
        Some(PropertyValue::Flag(b)) => Some(*b),
        _ => None,
    }
}

fn prop_text(dict: &Dictionary<PropertyValue>, key: &str) -> Option<String> {
    match dict.get(key) {
        Some(PropertyValue::Text(t)) => Some(t.clone()),
        _ => None,
    }
}

fn prop_int(dict: &Dictionary<PropertyValue>, key: &str) -> Option<i64> {
    match dict.get(key) {
        Some(PropertyValue::Int64(n)) => Some(*n),
        _ => None,
    }
}

fn prop_rate(dict: &Dictionary<PropertyValue>, key: &str) -> Option<Rate> {
    match dict.get(key) {
        Some(PropertyValue::Number(r)) => Some(*r),
        _ => None,
    }
}

fn prop_flag(dict: &Dictionary<PropertyValue>, key: &str) -> Option<bool> {
    match dict.get(key) {
        Some(PropertyValue::Flag(b)) => Some(*b),
        _ => None,
    }
}

fn prop_list(dict: &Dictionary<PropertyValue>, key: &str) -> Option<Vec<String>> {
    match dict.get(key) {
        Some(PropertyValue::TextList(l)) => Some(l.clone()),
        _ => None,
    }
}

fn prop_metadata<'a>(
    dict: &'a Dictionary<PropertyValue>,
    key: &str,
) -> Option<&'a Dictionary<MetadataValue>> {
    match dict.get(key) {
        Some(PropertyValue::Metadata(d)) => Some(d),
        _ => None,
    }
}

#[test]
fn metadata_dictionary_holds_every_field() {
    let dict = create_metadata_dict(&Some(song()), &None);
    assert_eq!(dict.len(), 7);
    assert_eq!(dict.get("mpris:trackid"), Some(&text("/org/mpris/MediaPlayer2/Track/1")));
    assert_eq!(dict.get("xesam:title"), Some(&text("Song A")));
    assert_eq!(
        dict.get("xesam:artist"),
        Some(&list(&["Artist X"]))
    );
    assert_eq!(dict.get("xesam:album"), Some(&text("Album Y")));
    assert_eq!(
        dict.get("xesam:albumArtist"),
        Some(&list(&["Various"]))
    );
    assert_eq!(dict.get("mpris:length"), Some(&MetadataValue::Int64(180_000_000)));
    assert_eq!(dict.get("mpris:artUrl"), Some(&text("https://example.org/a.jpg")));
}

#[test]
fn metadata_dictionary_of_a_bare_title() {
    let dict = create_metadata_dict(&Some(bare("Only")), &None);
    assert_eq!(dict.len(), 2);
    assert_eq!(dict.get("mpris:trackid"), Some(&text("/org/mpris/MediaPlayer2/Track/1")));
    assert_eq!(dict.get("xesam:title"), Some(&text("Only")));
    assert_eq!(dict.get("mpris:artUrl"), None);
}

#[test]
fn metadata_dictionary_without_metadata_is_empty() {
    let dict = create_metadata_dict(&None, &Some("/tmp/x.jpg".to_string()));
    assert_eq!(dict.len(), 0);
}

#[test]
fn artwork_url_takes_precedence_over_bytes() {
    let mut metadata = song();
    metadata.artwork_data = Some(vec![1, 2, 3]);
    assert_eq!(artwork_plan(&metadata, "demo"), ArtworkPlan::Url);
    let written = Some("/tmp/mpris_artwork_demo.jpg".to_string());
    let dict = create_metadata_dict(&Some(metadata), &written);
    assert_eq!(dict.get("mpris:artUrl"), Some(&text("https://example.org/a.jpg")));
}

#[test]
fn artwork_bytes_are_published_as_a_file_url() {
    let mut metadata = bare("Only");
    metadata.artwork_data = Some(vec![1, 2, 3]);
    assert_eq!(
        artwork_plan(&metadata, "demo"),
        ArtworkPlan::WriteFile("mpris_artwork_demo.jpg".to_string())
    );
    let written = Some("/tmp/mpris_artwork_demo.jpg".to_string());
    let dict = create_metadata_dict(&Some(metadata.clone()), &written);
    assert_eq!(dict.get("mpris:artUrl"), Some(&text("file:///tmp/mpris_artwork_demo.jpg")));
    let unwritten = create_metadata_dict(&Some(metadata), &None);
    assert_eq!(unwritten.get("mpris:artUrl"), None);
}

#[test]
fn no_artwork_needs_no_plan() {
    assert_eq!(artwork_plan(&bare("Only"), "demo"), ArtworkPlan::Absent);
    let dict = create_metadata_dict(&Some(bare("Only")), &Some("/tmp/stale.jpg".to_string()));
    assert_eq!(dict.get("mpris:artUrl"), None);
}

#[test]
fn status_and_loop_names() {
    assert_eq!(status_name(PlaybackStatus::Playing), "Playing");
    assert_eq!(status_name(PlaybackStatus::Paused), "Paused");
    assert_eq!(status_name(PlaybackStatus::Stopped), "Stopped");
    assert_eq!(loop_name(RepeatMode::Off), "None");
    assert_eq!(loop_name(RepeatMode::Track), "Track");
    assert_eq!(loop_name(RepeatMode::List), "Playlist");
}

#[test]
fn registration_of_a_fresh_session() {
    let controller: LinuxMediaController<u8> = LinuxMediaController::new();
    let reg = controller.setup_mpris("demo", "Demo Player", &None);
    assert_eq!(reg.bus_name, "org.mpris.MediaPlayer2.demo");
    assert_eq!(reg.object_path, "/org/mpris/MediaPlayer2");
    assert_eq!(reg.root.len(), 6);
    assert_eq!(prop_flag(&reg.root, "CanQuit"), Some(false));
    assert_eq!(prop_flag(&reg.root, "CanRaise"), Some(false));
    assert_eq!(prop_flag(&reg.root, "HasTrackList"), Some(false));
    assert_eq!(prop_text(&reg.root, "Identity"), Some("Demo Player".to_string()));
    assert_eq!(
        prop_list(&reg.root, "SupportedUriSchemes"),
        Some(vec!["file".to_string(), "http".to_string(), "https".to_string()])
    );
    assert_eq!(
        prop_list(&reg.root, "SupportedMimeTypes"),
        Some(vec!["audio/mpeg".to_string(), "audio/mp4".to_string(), "audio/ogg".to_string()])
    );
    assert_eq!(reg.player.len(), 15);
    assert_eq!(prop_text(&reg.player, "PlaybackStatus"), Some("Stopped".to_string()));
    assert_eq!(prop_text(&reg.player, "LoopStatus"), Some("None".to_string()));
    assert_eq!(prop_rate(&reg.player, "Rate"), Some(Rate { permille: 1000 }));
    assert_eq!(prop_flag(&reg.player, "Shuffle"), Some(false));
    assert_eq!(prop_int(&reg.player, "Position"), Some(0));
    assert_eq!(prop_rate(&reg.player, "Volume"), Some(Rate { permille: 1000 }));
    assert_eq!(prop_rate(&reg.player, "MinimumRate"), Some(Rate { permille: 1000 }));
    assert_eq!(prop_rate(&reg.player, "MaximumRate"), Some(Rate { permille: 1000 }));
    for key in ["CanGoNext", "CanGoPrevious", "CanPlay", "CanPause", "CanSeek", "CanControl"] {
        assert_eq!(prop_flag(&reg.player, key), Some(true));
    }
    assert_eq!(prop_metadata(&reg.player, "Metadata").map(|d| d.len()), Some(0));
    assert_eq!(reg.writable, vec!["LoopStatus", "Rate", "Shuffle", "Volume"]);
    assert_eq!(
        reg.methods,
        vec![
            PlayerMethod::Play,
            PlayerMethod::Pause,
            PlayerMethod::PlayPause,
            PlayerMethod::Stop,
            PlayerMethod::Next,
            PlayerMethod::Previous,
            PlayerMethod::Seek,
            PlayerMethod::SetPosition,
        ]
    );
}

#[test]
fn registration_shows_the_cached_state() {
    let mut controller: LinuxMediaController<u8> = LinuxMediaController::new();
    controller.set_metadata(song(), Ok(())).unwrap();
    controller.set_playback_info(playing(), Ok(())).unwrap();
    let reg = controller.setup_mpris("demo", "Demo Player", &None);
    assert_eq!(prop_text(&reg.player, "PlaybackStatus"), Some("Playing".to_string()));
    assert_eq!(prop_text(&reg.player, "LoopStatus"), Some("Playlist".to_string()));
    assert_eq!(prop_flag(&reg.player, "Shuffle"), Some(true));
    assert_eq!(prop_int(&reg.player, "Position"), Some(42_500_000));
    let metadata = prop_metadata(&reg.player, "Metadata").unwrap();
    assert_eq!(metadata.get("xesam:title"), Some(&text("Song A")));
    assert_eq!(metadata.len(), 7);
}

#[test]
fn setters_push_nothing_before_the_session_is_bound() {
    let mut controller: LinuxMediaController<u8> = LinuxMediaController::new();
    assert!(controller.set_metadata_request(&song(), &None).is_none());
    assert!(controller.set_playback_info_request(&playing()).is_none());
    assert!(controller.clear_metadata_request().is_none());
    assert_eq!(controller.set_metadata(song(), Ok(())), Ok(()));
    assert_eq!(controller.set_playback_info(playing(), Ok(())), Ok(()));
    assert!(controller.set_playback_status_request(PlaybackStatus::Paused).is_none());
    assert!(controller.set_position_request(Seconds::zero()).is_none());
    assert_eq!(controller.is_enabled(no_probe()), Ok(false));
    assert_eq!(controller.get_metadata(None), Ok(Some(song())));
}

#[test]
fn metadata_push_announces_the_dictionary() {
    let controller = bound();
    let signal = controller.set_metadata_request(&song(), &None).unwrap();
    assert_eq!(signal.object_path, "/org/mpris/MediaPlayer2");
    assert_eq!(signal.signal_interface, "org.freedesktop.DBus.Properties");
    assert_eq!(signal.signal_name, "PropertiesChanged");
    assert_eq!(signal.interface, "org.mpris.MediaPlayer2.Player");
    assert!(signal.invalidated.is_empty());
    assert_eq!(signal.changed.len(), 1);
    let metadata = prop_metadata(&signal.changed, "Metadata").unwrap();
    assert_eq!(metadata.len(), 7);
    assert_eq!(metadata.get("mpris:length"), Some(&MetadataValue::Int64(180_000_000)));
}

#[test]
fn playback_push_announces_five_properties() {
    let controller = bound();
    let signal = controller.set_playback_info_request(&playing()).unwrap();
    assert_eq!(signal.interface, "org.mpris.MediaPlayer2.Player");
    assert_eq!(signal.changed.len(), 5);
    assert_eq!(prop_text(&signal.changed, "PlaybackStatus"), Some("Playing".to_string()));
    assert_eq!(prop_int(&signal.changed, "Position"), Some(42_500_000));
    assert_eq!(prop_rate(&signal.changed, "Rate"), Some(Rate { permille: 1000 }));
    assert_eq!(flag(&signal, "Shuffle"), Some(true));
    assert_eq!(prop_text(&signal.changed, "LoopStatus"), Some("Playlist".to_string()));
}

#[test]
fn status_and_position_push_the_whole_playback_state() {
    let mut controller = bound();
    assert!(controller.set_playback_status_request(PlaybackStatus::Paused).is_none());
    assert!(controller.set_position_request(Seconds::from_nanos(1)).is_none());
    controller.set_playback_info(playing(), Ok(())).unwrap();
    let signal = controller.set_playback_status_request(PlaybackStatus::Paused).unwrap();
    assert_eq!(signal.changed.len(), 5);
    assert_eq!(prop_text(&signal.changed, "PlaybackStatus"), Some("Paused".to_string()));
    assert_eq!(prop_int(&signal.changed, "Position"), Some(42_500_000));
    let signal = controller.set_position_request(Seconds::from_nanos(7_000_000_999)).unwrap();
    assert_eq!(prop_text(&signal.changed, "PlaybackStatus"), Some("Playing".to_string()));
    assert_eq!(prop_int(&signal.changed, "Position"), Some(7_000_000));
}

#[test]
fn clearing_announces_an_empty_dictionary() {
    let controller = bound();
    let signal = controller.clear_metadata_request().unwrap();
    assert_eq!(signal.changed.len(), 1);
    assert_eq!(prop_metadata(&signal.changed, "Metadata").map(|d| d.len()), Some(0));
}

#[test]
fn a_failed_registration_is_the_error_and_keeps_the_identity() {
    let mut controller: LinuxMediaController<u8> = LinuxMediaController::new();
    let r = controller.initialize_session(
        "demo".to_string(),
        "Demo Player".to_string(),
        Err("name already owned".to_string()),
    );
    assert_eq!(r.unwrap_err().message(), "name already owned");
    assert_eq!(controller.app_id(), "demo");
    assert_eq!(controller.is_enabled(no_probe()), Ok(false));
    assert_eq!(
        controller.initialize_session("demo2".to_string(), "Demo".to_string(), Ok(())),
        Ok(())
    );
    assert_eq!(controller.app_id(), "demo2");
    assert_eq!(controller.is_enabled(no_probe()), Ok(true));
    let again = controller.initialize_session(
        "demo3".to_string(),
        "Demo".to_string(),
        Err("gone".to_string()),
    );
    assert!(again.is_err());
    assert_eq!(controller.is_enabled(no_probe()), Ok(true));
}

#[test]
fn a_failed_push_on_a_bound_session_is_the_error() {
    let mut controller = bound();
    let failed = |message: &str| Err(ControllerError::NativeOperationFailed(message.to_string()));
    let closed = controller.set_metadata(song(), Err("bus closed".to_string()));
    assert_eq!(closed, failed("bus closed"));
    assert_eq!(controller.get_metadata(None), Ok(Some(song())));
    let unread = Err("e0".to_string());
    assert_eq!(controller.set_playback_status(PlaybackStatus::Paused, unread), Ok(()));
    assert_eq!(controller.set_position(Seconds::zero(), Err("e0".to_string())), Ok(()));
    assert_eq!(controller.set_playback_info(playing(), Err("e1".to_string())), failed("e1"));
    assert_eq!(controller.get_playback_info(None), Ok(Some(playing())));
    assert_eq!(
        controller.set_playback_status(PlaybackStatus::Paused, Err("e2".to_string())),
        failed("e2")
    );
    assert_eq!(controller.get_playback_status(None), Ok(PlaybackStatus::Paused));
    let moved = controller.set_position(Seconds::from_nanos(9), Err("e3".to_string()));
    assert_eq!(moved, failed("e3"));
    assert_eq!(controller.get_position(None), Ok(Seconds::from_nanos(9)));
    assert_eq!(controller.clear_metadata(Err("e4".to_string())), failed("e4"));
    assert_eq!(controller.get_metadata(None), Ok(None));
    assert_eq!(controller.set_metadata(song(), Ok(())), Ok(()));
}

#[test]
fn an_unbound_session_pushes_nothing_and_cannot_fail() {
    let mut controller: LinuxMediaController<u8> = LinuxMediaController::new();
    assert_eq!(controller.set_metadata(song(), Err("unread".to_string())), Ok(()));
    assert_eq!(controller.set_playback_info(playing(), Err("unread".to_string())), Ok(()));
    let unread = Err("x".to_string());
    assert_eq!(controller.set_playback_status(PlaybackStatus::Paused, unread), Ok(()));
    assert_eq!(controller.set_position(Seconds::zero(), Err("x".to_string())), Ok(()));
    assert_eq!(controller.clear_metadata(Err("unread".to_string())), Ok(()));
}

#[test]
fn other_players_are_in_the_namespace_and_not_this_application() {
    assert!(other_player("org.mpris.MediaPlayer2.vlc", "demo"));
    assert!(!other_player("org.mpris.MediaPlayer2.demo", "demo"));
    assert!(!other_player("org.freedesktop.DBus", "demo"));
    assert!(!other_player(":1.42", "demo"));
}

#[test]
fn a_name_that_contains_the_id_is_another_player() {
    assert!(other_player("org.mpris.MediaPlayer2.demo2", "demo"));
    assert!(other_player("org.mpris.MediaPlayer2.demo.instance1", "demo"));
    assert!(other_player("org.mpris.MediaPlayer2.mydemo", "demo"));
    assert!(other_player("org.mpris.MediaPlayer2.de", "demo"));
}

#[test]
fn an_empty_id_excludes_the_bare_namespace_only() {
    assert!(other_player("org.mpris.MediaPlayer2.vlc", ""));
    assert!(!other_player("org.mpris.MediaPlayer2.", ""));
    assert!(!other_player("org.mpris.MediaPlayer2", ""));
}

#[test]
fn the_first_other_player_is_found_in_listing_order() {
    let names: Vec<String> = [
        "org.freedesktop.DBus",
        "org.mpris.MediaPlayer2.demo",
        "org.mpris.MediaPlayer2.vlc",
        ":1.7",
        "org.mpris.MediaPlayer2.mpv",
    ]
    .iter()
    .map(|s| s.to_string())
    .collect();
    assert_eq!(find_other_player(&names, "demo", 0), 2);
    assert_eq!(find_other_player(&names, "demo", 2), 2);
    assert_eq!(find_other_player(&names, "demo", 3), 4);
    assert_eq!(find_other_player(&names, "demo", 5), 5);
    assert_eq!(find_other_player(&names, "demo", 9), 5);
    assert_eq!(find_other_player(&names, "vlc", 0), 1);
    assert_eq!(find_other_player(&names, "v", 0), 1);
}

#[test]
fn the_track_of_a_player_whose_name_contains_the_id_is_read() {
    let mut controller = bound();
    controller.set_metadata(song(), Ok(())).unwrap();
    let (mut scan, step) = controller.scan_players(names(&[
        "org.mpris.MediaPlayer2.demo",
        "org.mpris.MediaPlayer2.demo2",
    ]));
    assert_eq!(step, ask("org.mpris.MediaPlayer2.demo2"));
    let step = scan.resume(Some(reply(vec![("xesam:title", text("T"))])));
    assert_eq!(step, ScanStep::Found(bare("T")));
    assert_eq!(controller.get_metadata(Some(bare("T"))), Ok(Some(bare("T"))));
}

#[test]
fn only_the_first_item_of_a_list_is_read() {
    let mixed = MetadataValue::List(vec![Some("First".to_string()), None]);
    let found = parse_player_metadata(&reply(vec![("xesam:artist", mixed)])).unwrap();
    assert_eq!(found.artist, Some("First".to_string()));
    let headless = MetadataValue::List(vec![None, Some("Second".to_string())]);
    assert_eq!(parse_player_metadata(&reply(vec![("xesam:artist", headless)])), None);
}

#[test]
fn the_bus_is_asked_for_its_names_once_bound() {
    let unbound: LinuxMediaController<u8> = LinuxMediaController::new();
    assert_eq!(unbound.list_names_request(), None);
    assert_eq!(
        bound().list_names_request(),
        Some(BusQuery {
            destination: "org.freedesktop.DBus".to_string(),
            object_path: "/".to_string(),
            interface: "org.freedesktop.DBus".to_string(),
            member: "ListNames".to_string(),
            timeout_millis: 500,
        })
    );
}

#[test]
fn methods_have_their_names_and_arguments() {
    let expected: [(PlayerMethod, &str, &[&str]); 8] = [
        (PlayerMethod::Play, "Play", &[]),
        (PlayerMethod::Pause, "Pause", &[]),
        (PlayerMethod::PlayPause, "PlayPause", &[]),
        (PlayerMethod::Stop, "Stop", &[]),
        (PlayerMethod::Next, "Next", &[]),
        (PlayerMethod::Previous, "Previous", &[]),
        (PlayerMethod::Seek, "Seek", &["offset"]),
        (PlayerMethod::SetPosition, "SetPosition", &["track_id", "position"]),
    ];
    for (method, name, arguments) in expected {
        assert_eq!(method_name(method), name);
        assert_eq!(method_arguments(method), arguments.to_vec());
    }
}

#[test]
fn artwork_is_written_only_for_a_bound_session() {
    let mut with_bytes = bare("Only");
    with_bytes.artwork_data = Some(vec![1, 2, 3]);
    let unbound: LinuxMediaController<u8> = LinuxMediaController::new();
    assert_eq!(unbound.set_metadata_artwork(&with_bytes), None);
    let mut controller = bound();
    assert_eq!(
        controller.set_metadata_artwork(&with_bytes),
        Some("mpris_artwork_demo.jpg".to_string())
    );
    assert_eq!(controller.set_metadata_artwork(&song()), None);
    assert_eq!(controller.set_metadata_artwork(&bare("Only")), None);
    assert_eq!(controller.setup_artwork("next"), None);
    controller.set_metadata(with_bytes, Ok(())).unwrap();
    assert_eq!(controller.setup_artwork("next"), Some("mpris_artwork_next.jpg".to_string()));
    controller.set_metadata(song(), Ok(())).unwrap();
    assert_eq!(controller.setup_artwork("next"), None);
}

fn reply(entries: Vec<(&str, MetadataValue)>) -> Dictionary<MetadataValue> {
    let mut dict = Dictionary::new();
    for (key, value) in entries {
        dict.set(key.to_string(), value);
    }
    dict
}

#[test]
fn another_players_track_is_read_from_its_dictionary() {
    let dict = reply(vec![
        ("mpris:trackid", text("/track/9")),
        ("xesam:title", text("Their Song")),
        ("xesam:artist", list(&["First", "Second"])),
        ("xesam:album", text("Their Album")),
        ("xesam:albumArtist", list(&["Ignored"])),
        ("mpris:length", MetadataValue::Int64(5)),
        ("mpris:artUrl", text("file:///tmp/cover.png")),
    ]);
    assert_eq!(
        parse_player_metadata(&dict),
        Some(MediaMetadata {
            title: "Their Song".to_string(),
            artist: Some("First".to_string()),
            album: Some("Their Album".to_string()),
            album_artist: None,
            duration: None,
            artwork_url: Some("file:///tmp/cover.png".to_string()),
            artwork_data: None,
        })
    );
}

#[test]
fn a_track_with_an_artist_only_is_called_unknown() {
    let dict = reply(vec![("xesam:artist", list(&["Solo"]))]);
    let found = parse_player_metadata(&dict).unwrap();
    assert_eq!(found.title, "Unknown");
    assert_eq!(found.artist, Some("Solo".to_string()));
}

#[test]
fn a_dictionary_without_title_and_artist_describes_no_track() {
    assert_eq!(parse_player_metadata(&reply(vec![])), None);
    assert_eq!(parse_player_metadata(&reply(vec![("xesam:album", text("Album"))])), None);
    assert_eq!(
        parse_player_metadata(&reply(vec![
            ("xesam:title", MetadataValue::Int64(3)),
            ("xesam:artist", list(&[])),
        ])),
        None
    );
    assert_eq!(
        parse_player_metadata(&reply(vec![
            ("xesam:title", MetadataValue::Other),
            ("xesam:artist", text("not a list")),
        ])),
        None
    );
}

#[test]
fn published_metadata_reads_back_over_the_bus_as_a_url() {
    let mut metadata = bare("Song A");
    metadata.artist = Some("Artist X".to_string());
    metadata.artwork_data = Some(vec![9, 9, 9]);
    let written = Some("/tmp/mpris_artwork_demo.jpg".to_string());
    let dict = create_metadata_dict(&Some(metadata), &written);
    let found = parse_player_metadata(&dict).unwrap();
    assert_eq!(found.title, "Song A");
    assert_eq!(found.artist, Some("Artist X".to_string()));
    assert_eq!(found.artwork_url, Some("file:///tmp/mpris_artwork_demo.jpg".to_string()));
    assert_eq!(found.artwork_data, None);
}

fn names(list: &[&str]) -> Vec<String> {
    list.iter().map(|s| s.to_string()).collect()
}

#[test]
fn a_scan_asks_other_players_in_order_until_one_has_a_track() {
    let (mut scan, step) = PlayerScan::start(
        names(&[
            "org.mpris.MediaPlayer2.demo",
            "org.mpris.MediaPlayer2.vlc",
            "org.freedesktop.DBus",
            "org.mpris.MediaPlayer2.mpv",
            "org.mpris.MediaPlayer2.last",
        ]),
        "demo".to_string(),
    );
    assert_eq!(step, ask("org.mpris.MediaPlayer2.vlc"));
    let step = scan.resume(None);
    assert_eq!(step, ask("org.mpris.MediaPlayer2.mpv"));
    let step = scan.resume(Some(reply(vec![("xesam:album", text("no track here"))])));
    assert_eq!(step, ask("org.mpris.MediaPlayer2.last"));
    let step = scan.resume(Some(reply(vec![("xesam:title", text("Found"))])));
    assert_eq!(step, ScanStep::Found(bare("Found")));
    assert_eq!(scan.resume(Some(reply(vec![("xesam:title", text("Late"))]))), ScanStep::Exhausted);
}

#[test]
fn a_scan_without_other_players_is_exhausted_at_once() {
    let (mut scan, step) =
        PlayerScan::start(names(&["org.mpris.MediaPlayer2.demo", ":1.1"]), "demo".to_string());
    assert_eq!(step, ScanStep::Exhausted);
    assert_eq!(scan.resume(None), ScanStep::Exhausted);
    let (_, step) = PlayerScan::start(Vec::new(), "demo".to_string());
    assert_eq!(step, ScanStep::Exhausted);
}

#[test]
fn a_scan_ends_exhausted_when_no_player_answers_with_a_track() {
    let (mut scan, step) = PlayerScan::start(
        names(&["org.mpris.MediaPlayer2.a", "org.mpris.MediaPlayer2.b"]),
        "demo".to_string(),
    );
    assert_eq!(step, ask("org.mpris.MediaPlayer2.a"));
    assert_eq!(scan.resume(None), ask("org.mpris.MediaPlayer2.b"));
    assert_eq!(scan.resume(None), ScanStep::Exhausted);
}

#[test]
fn only_a_bound_session_scans_the_bus() {
    let unbound: LinuxMediaController<u8> = LinuxMediaController::new();
    let (_, step) = unbound.scan_players(names(&["org.mpris.MediaPlayer2.vlc"]));
    assert_eq!(step, ScanStep::Exhausted);
    let (_, step) = bound().scan_players(names(&[
        "org.mpris.MediaPlayer2.demo",
        "org.mpris.MediaPlayer2.vlc",
    ]));
    assert_eq!(step, ask("org.mpris.MediaPlayer2.vlc"));
}

#[test]
fn live_metadata_answers_only_for_a_bound_session() {
    let mut unbound: LinuxMediaController<u8> = LinuxMediaController::new();
    unbound.set_metadata(song(), Ok(())).unwrap();
    assert_eq!(unbound.get_metadata(Some(bare("Theirs"))), Ok(Some(song())));
    let mut controller = bound();
    controller.set_metadata(song(), Ok(())).unwrap();
    assert_eq!(controller.get_metadata(Some(bare("Theirs"))), Ok(Some(bare("Theirs"))));
    assert_eq!(controller.get_metadata(None), Ok(Some(song())));
}

#[test]
fn playback_getters_answer_from_the_cache() {
    let mut controller = bound();
    assert_eq!(controller.get_playback_info(None), Ok(None));
    assert_eq!(
        controller.get_playback_status(Some(PlaybackStatus::Playing)),
        Ok(PlaybackStatus::Stopped)
    );
    assert_eq!(controller.get_position(Some(Seconds::from_nanos(5))), Ok(Seconds::zero()));
    controller.set_playback_info(playing(), Ok(())).unwrap();
    let theirs = PlaybackInfo { status: PlaybackStatus::Paused, ..playing() };
    assert_eq!(controller.get_playback_info(Some(theirs)), Ok(Some(playing())));
    assert_eq!(
        controller.get_playback_status(Some(PlaybackStatus::Paused)),
        Ok(PlaybackStatus::Playing)
    );
    assert_eq!(
        controller.get_position(Some(Seconds::from_nanos(5))),
        Ok(Seconds::from_nanos(42_500_000_000))
    );
}

#[test]
fn a_second_handler_replaces_the_first() {
    let mut controller = bound();
    assert_eq!(controller.handler(), None);
    assert!(!controller.set_event_handler(1));
    assert_eq!(controller.handler(), Some(&1));
    assert!(!controller.set_event_handler(2));
    assert_eq!(controller.handler(), Some(&2));
}

#[test]
fn the_bus_name_is_the_namespace_and_the_id() {
    assert_eq!(
        tauri_plugin_media::platform::linux::bus_name("demo"),
        "org.mpris.MediaPlayer2.demo"
    );
    assert_eq!(tauri_plugin_media::platform::linux::bus_name(""), "org.mpris.MediaPlayer2.");
}
