use tauri_plugin_media::dictionary::Dictionary;
use tauri_plugin_media::models::{
    MediaMetadata, PlaybackInfo, PlaybackStatus, Rate, RepeatMode, Seconds,
};
use tauri_plugin_media::platform::macos::{
    rate_to_show, InfoValue, MacOSMediaController, NowPlayingWrite, RemoteCommand,
};
use tauri_plugin_media::platform::{MediaController, NativeLiveness};

const TITLE: &str = "MPMediaItemPropertyTitle";
const ARTIST: &str = "MPMediaItemPropertyArtist";
const ALBUM: &str = "MPMediaItemPropertyAlbumTitle";
const ALBUM_ARTIST: &str = "MPMediaItemPropertyAlbumArtist";
const DURATION: &str = "MPMediaItemPropertyPlaybackDuration";
const ELAPSED: &str = "MPNowPlayingInfoPropertyElapsedPlaybackTime";
const RATE: &str = "MPNowPlayingInfoPropertyPlaybackRate";

type Backend = MacOSMediaController<u8>;

fn song() -> MediaMetadata {
    MediaMetadata {
        title: "Song A".to_string(),
        artist: Some("Artist X".to_string()),
        album: Some("Album Y".to_string()),
        album_artist: Some("Various".to_string()),
        duration: Some(Seconds::from_nanos(180_000_000_000)),
        artwork_url: Some("https://example.org/a.jpg".to_string()),
        artwork_data: Some(vec![1, 2, 3]),
    }
}

fn info(status: PlaybackStatus, permille: i64) -> PlaybackInfo {
    PlaybackInfo {
        status,
        position: Seconds::from_nanos(42_500_000_000),
        shuffle: false,
        repeat_mode: RepeatMode::Off,
        playback_rate: Rate { permille },
    }
}

fn written(write: NowPlayingWrite) -> Dictionary<InfoValue> {
    match write {
        NowPlayingWrite::Replace(dict) => dict,
        _ => panic!("a dictionary was to be written"),
    }
}

fn track_dictionary() -> Dictionary<InfoValue> {
    written(Backend::set_metadata_request(&song()))
}

fn text(value: &str) -> InfoValue {
    InfoValue::Text(value.to_string())
}

fn probe() -> NativeLiveness {
    NativeLiveness { session_active: true, controls_enabled: Some(true) }
}

#[test]
fn all_seven_commands_are_enabled() {
    assert_eq!(
        Backend::setup_command_handlers(),
        vec![
            RemoteCommand::Play,
            RemoteCommand::Pause,
            RemoteCommand::Stop,
            RemoteCommand::NextTrack,
            RemoteCommand::PreviousTrack,
            RemoteCommand::TogglePlayPause,
            RemoteCommand::ChangePlaybackPosition,
        ]
    );
}

#[test]
fn metadata_replaces_the_dictionary_with_the_textual_fields() {
    let dict = track_dictionary();
    assert_eq!(dict.len(), 5);
    assert_eq!(dict.get(TITLE), Some(&text("Song A")));
    assert_eq!(dict.get(ARTIST), Some(&text("Artist X")));
    assert_eq!(dict.get(ALBUM), Some(&text("Album Y")));
    assert_eq!(dict.get(ALBUM_ARTIST), Some(&text("Various")));
    assert_eq!(dict.get(DURATION), Some(&InfoValue::Time(Seconds::from_nanos(180_000_000_000))));
    assert_eq!(dict.get(ELAPSED), None);
    assert_eq!(dict.get(RATE), None);
}

#[test]
fn metadata_of_a_bare_title_is_one_entry() {
    let bare = MediaMetadata {
        title: "Only".to_string(),
        artist: None,
        album: None,
        album_artist: None,
        duration: None,
        artwork_url: None,
        artwork_data: None,
    };
    let dict = written(Backend::set_metadata_request(&bare));
    assert_eq!(dict.len(), 1);
    assert_eq!(dict.get(TITLE), Some(&text("Only")));
}

#[test]
fn playback_information_is_merged_into_the_dictionary() {
    let dict = written(Backend::set_playback_info_request(
        &info(PlaybackStatus::Playing, 2000),
        Some(track_dictionary()),
    ));
    assert_eq!(dict.len(), 7);
    assert_eq!(dict.get(TITLE), Some(&text("Song A")));
    assert_eq!(dict.get(DURATION), Some(&InfoValue::Time(Seconds::from_nanos(180_000_000_000))));
    assert_eq!(dict.get(ELAPSED), Some(&InfoValue::Time(Seconds::from_nanos(42_500_000_000))));
    assert_eq!(dict.get(RATE), Some(&InfoValue::Speed(Rate { permille: 2000 })));
}

#[test]
fn the_rate_is_standstill_unless_playing() {
    for status in [PlaybackStatus::Paused, PlaybackStatus::Stopped] {
        for permille in [500, 1000, 2000, -1000] {
            let given = info(status, permille);
            assert_eq!(rate_to_show(&given), Rate { permille: 0 });
            let dict =
                written(Backend::set_playback_info_request(&given, Some(track_dictionary())));
            assert_eq!(dict.get(RATE), Some(&InfoValue::Speed(Rate { permille: 0 })));
        }
    }
    for permille in [500, 1000, 2000, -1000] {
        let given = info(PlaybackStatus::Playing, permille);
        assert_eq!(rate_to_show(&given), Rate { permille });
    }
}

#[test]
fn a_merge_replaces_what_an_earlier_merge_wrote() {
    let first = written(Backend::set_playback_info_request(
        &info(PlaybackStatus::Playing, 1000),
        Some(track_dictionary()),
    ));
    let paused = info(PlaybackStatus::Paused, 1000);
    let second = written(Backend::set_playback_info_request(&paused, Some(first)));
    assert_eq!(second.len(), 7);
    assert_eq!(second.get(RATE), Some(&InfoValue::Speed(Rate { permille: 0 })));
}

fn holding(cached: PlaybackInfo) -> Backend {
    let mut session = Backend::new();
    session.set_playback_info(cached, Ok(())).unwrap();
    session
}

#[test]
fn nothing_is_merged_without_a_dictionary() {
    let session = holding(info(PlaybackStatus::Paused, 1000));
    assert!(matches!(
        Backend::set_playback_info_request(&info(PlaybackStatus::Playing, 1000), None),
        NowPlayingWrite::Leave
    ));
    assert!(matches!(
        session.set_playback_status_request(PlaybackStatus::Playing, None),
        NowPlayingWrite::Leave
    ));
    assert!(matches!(session.set_position_request(Seconds::zero(), None), NowPlayingWrite::Leave));
}

#[test]
fn nothing_is_written_for_a_status_or_position_without_cached_playback() {
    let session = Backend::new();
    assert!(matches!(
        session.set_playback_status_request(PlaybackStatus::Playing, Some(track_dictionary())),
        NowPlayingWrite::Leave
    ));
    assert!(matches!(
        session.set_position_request(Seconds::from_nanos(5), Some(track_dictionary())),
        NowPlayingWrite::Leave
    ));
}

#[test]
fn a_status_goes_through_the_full_playback_path() {
    let session = holding(info(PlaybackStatus::Paused, 2000));
    let dict = written(
        session.set_playback_status_request(PlaybackStatus::Playing, Some(track_dictionary())),
    );
    assert_eq!(dict.len(), 7);
    assert_eq!(dict.get(RATE), Some(&InfoValue::Speed(Rate { permille: 2000 })));
    assert_eq!(dict.get(ELAPSED), Some(&InfoValue::Time(Seconds::from_nanos(42_500_000_000))));
    assert_eq!(dict.get(TITLE), Some(&text("Song A")));
    for status in [PlaybackStatus::Paused, PlaybackStatus::Stopped] {
        let dict = written(session.set_playback_status_request(status, Some(track_dictionary())));
        assert_eq!(dict.get(RATE), Some(&InfoValue::Speed(Rate { permille: 0 })));
        assert_eq!(dict.get(ELAPSED), Some(&InfoValue::Time(Seconds::from_nanos(42_500_000_000))));
    }
}

#[test]
fn a_position_goes_through_the_full_playback_path() {
    let playing = holding(info(PlaybackStatus::Playing, 500));
    let dict = written(
        playing.set_position_request(Seconds::from_nanos(7_000_000_000), Some(track_dictionary())),
    );
    assert_eq!(dict.len(), 7);
    assert_eq!(dict.get(ELAPSED), Some(&InfoValue::Time(Seconds::from_nanos(7_000_000_000))));
    assert_eq!(dict.get(RATE), Some(&InfoValue::Speed(Rate { permille: 500 })));
    let paused = holding(info(PlaybackStatus::Paused, 500));
    let dict = written(
        paused.set_position_request(Seconds::from_nanos(7_000_000_000), Some(track_dictionary())),
    );
    assert_eq!(dict.get(RATE), Some(&InfoValue::Speed(Rate { permille: 0 })));
}

#[test]
fn clearing_removes_the_dictionary() {
    assert!(matches!(Backend::clear_metadata_request(), NowPlayingWrite::Clear));
}

#[test]
fn the_session_is_enabled_once_opened() {
    let mut controller = Backend::new();
    assert_eq!(controller.is_enabled(probe()), Ok(false));
    assert_eq!(
        controller.initialize_session("demo".to_string(), "Demo".to_string(), Err("x".to_string())),
        Ok(())
    );
    assert_eq!(controller.is_enabled(probe()), Ok(true));
}

#[test]
fn getters_never_consult_a_live_query() {
    let mut controller = Backend::new();
    controller.set_metadata(song(), Ok(())).unwrap();
    controller.set_playback_info(info(PlaybackStatus::Paused, 1000), Ok(())).unwrap();
    let mut theirs = song();
    theirs.title = "Theirs".to_string();
    assert_eq!(controller.get_metadata(Some(theirs)), Ok(Some(song())));
    assert_eq!(
        controller.get_playback_info(Some(info(PlaybackStatus::Playing, 1))),
        Ok(Some(info(PlaybackStatus::Paused, 1000)))
    );
    assert_eq!(
        controller.get_playback_status(Some(PlaybackStatus::Playing)),
        Ok(PlaybackStatus::Paused)
    );
    assert_eq!(
        controller.get_position(Some(Seconds::zero())),
        Ok(Seconds::from_nanos(42_500_000_000))
    );
}

#[test]
fn status_and_position_change_the_cached_information() {
    let mut controller = Backend::new();
    assert_eq!(controller.set_playback_status(PlaybackStatus::Playing, Ok(())), Ok(()));
    assert_eq!(controller.get_playback_info(None), Ok(None));
    controller.set_playback_info(info(PlaybackStatus::Paused, 500), Ok(())).unwrap();
    controller.set_playback_status(PlaybackStatus::Playing, Ok(())).unwrap();
    controller.set_position(Seconds::from_nanos(9), Ok(())).unwrap();
    assert_eq!(
        controller.get_playback_info(None),
        Ok(Some(PlaybackInfo {
            status: PlaybackStatus::Playing,
            position: Seconds::from_nanos(9),
            ..info(PlaybackStatus::Paused, 500)
        }))
    );
}

#[test]
fn registering_a_handler_does_not_rewire() {
    let mut controller = Backend::new();
    assert!(!controller.set_event_handler(7));
    assert_eq!(controller.handler(), Some(&7));
    assert!(!controller.set_event_handler(8));
    assert_eq!(controller.handler(), Some(&8));
}
